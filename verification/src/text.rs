//! Text that arrives as bytes, and text that is put together in a byte buffer.
use format_no_std::WriteTo;
use vstd::prelude::*;
use vstd::utf8::{decode_utf8, encode_utf8, is_ascii_chars, is_ascii_chars_encode_utf8, valid_utf8};

verus! {

/// `core::str::Utf8Error` is only carried, never looked into.
#[verifier::external_type_specification]
#[verifier::external_body]
pub struct ExUtf8Error(core::str::Utf8Error);

/// `core::fmt::Error` is only carried: it has nothing inside.
#[verifier::external_type_specification]
#[verifier::external_body]
pub struct ExFmtError(core::fmt::Error);

/// `core::str::from_utf8`: the text whose encoding the bytes are; an error exactly
/// when the bytes are not well-formed UTF-8.
pub assume_specification<'a>[ core::str::from_utf8 ](bytes: &'a [u8]) -> (text: Result<
    &'a str,
    core::str::Utf8Error,
>)
    ensures
        text is Ok <==> valid_utf8(bytes@),
        text matches Ok(t) ==> t@ == decode_utf8(bytes@),
;

/// `format_no_std::WriteTo`: a writer that gathers text in a borrowed byte buffer.
#[verifier::external_type_specification]
#[verifier::external_body]
pub struct ExWriteTo<'a>(WriteTo<'a>);

/// The text that a writer has been given: what its buffer holds, as long as that fits.
pub uninterp spec fn given(writer: WriteTo) -> Seq<char>;

/// The number of bytes that the buffer of a writer holds.
pub uninterp spec fn room(writer: WriteTo) -> nat;

/// Whether `text` goes into `len` bytes.
pub open spec fn fits(text: Seq<char>, len: nat) -> bool {
    encode_utf8(text).len() <= len
}

/// `format_no_std::WriteTo::new`: a writer that has been given nothing, on the whole
/// of `buf`. What bytes `buf` is left with when the writer is gone stays unsaid: the
/// text is read through the writer.
#[verifier::external_body]
pub(crate) fn writer_on<'a>(buf: &'a mut [u8]) -> (writer: WriteTo<'a>)
    ensures
        given(writer) == Seq::<char>::empty(),
        room(writer) == old(buf)@.len(),
{
    WriteTo::new(buf)
}

/// `format_no_std::WriteTo::write_str`: success exactly when the buffer holds all that
/// the writer has been given, `text` included. A failure leaves the writer over its
/// buffer; what text it stands for then stays unsaid, but for that it does not fit.
#[verifier::external_body]
pub(crate) fn write_text<'a>(writer: &mut WriteTo<'a>, text: &str) -> (written: Result<
    (),
    core::fmt::Error,
>)
    ensures
        room(*final(writer)) == room(*old(writer)),
        written is Ok <==> fits(given(*old(writer)) + text@, room(*old(writer))),
        written is Ok ==> given(*final(writer)) == given(*old(writer)) + text@,
        written is Err ==> !fits(given(*final(writer)), room(*final(writer))),
{
    core::fmt::Write::write_str(writer, text)
}

/// `format_no_std::WriteTo::as_str`: all the text that the writer has been given, or
/// nothing where the buffer was too short for it.
#[verifier::external_body]
pub(crate) fn written_text<'a>(writer: WriteTo<'a>) -> (text: Option<&'a str>)
    ensures
        text is Some <==> fits(given(writer), room(writer)),
        text matches Some(t) ==> t@ == given(writer),
{
    writer.as_str()
}

/// Whether `after` is `before` once it has been given `text` too, all of it ASCII.
pub open spec fn extended(before: WriteTo, after: WriteTo, text: Seq<char>) -> bool {
    &&& given(after) == given(before) + text
    &&& room(after) == room(before)
    &&& is_ascii_chars(given(after))
}

/// Writes ASCII text, one byte for each character, behind the text that the writer has.
pub(crate) fn write_ascii<'a>(writer: &mut WriteTo<'a>, text: &str) -> (written: Result<
    (),
    core::fmt::Error,
>)
    requires
        is_ascii_chars(given(*old(writer))),
        is_ascii_chars(text@),
    ensures
        written is Ok <==> given(*old(writer)).len() + text@.len() <= room(*old(writer)),
        written is Ok ==> extended(*old(writer), *final(writer), text@),
{
    proof {
        is_ascii_chars_encode_utf8(given(*writer));
        is_ascii_chars_encode_utf8(given(*writer) + text@);
    }
    write_text(writer, text)
}

} // verus!
