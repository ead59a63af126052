use wifi_fetch::endpoint::{remote_endpoint, Endpoint};
use wifi_fetch::request::{request_bytes, request_url, BufferTooShort, REQUEST, URL_BUFFER_LEN};

#[test]
fn the_request_names_the_host() {
    assert_eq!(
        request_bytes(),
        b"GET / HTTP/1.0\r\nHost: www.mobile-j.de\r\n\r\n"
    );
    assert_eq!(REQUEST.as_bytes(), request_bytes());
}

#[test]
fn the_server_is_fixed() {
    let server = remote_endpoint();
    assert_eq!(server.octets, [142, 250, 185, 115]);
    assert_eq!(server.port, 80);
}

#[test]
fn the_url_of_the_server() {
    let mut buf = [0u8; URL_BUFFER_LEN];
    let url = request_url(&remote_endpoint(), &mut buf).unwrap();
    assert_eq!(
        url,
        "http://142.250.185.115:80 GET / HTTP/1.0\r\nHost: www.mobile-j.de\r\n\r\n"
    );
    assert_eq!(url.len(), 67);
}

#[test]
fn the_url_is_a_part_of_the_buffer() {
    let mut buf = [b'x'; URL_BUFFER_LEN];
    let len = request_url(&remote_endpoint(), &mut buf).unwrap().len();
    assert_eq!(&buf[..14], b"http://142.250");
    assert_eq!(&buf[len..], b"xxxx");
}

#[test]
fn the_longest_url_leaves_one_byte() {
    let endpoint = Endpoint { octets: [255, 255, 255, 255], port: 65_535 };
    let mut buf = [0u8; URL_BUFFER_LEN];
    let url = request_url(&endpoint, &mut buf).unwrap();
    assert!(url.starts_with("http://255.255.255.255:65535 GET / "));
    assert_eq!(url.len(), 70);
}

#[test]
fn the_shortest_url() {
    let endpoint = Endpoint { octets: [0, 0, 0, 0], port: 0 };
    let mut buf = [0u8; 58];
    let url = request_url(&endpoint, &mut buf).unwrap();
    assert!(url.starts_with("http://0.0.0.0:0 GET / "));
    assert_eq!(url.len(), 58);
}

#[test]
fn numbers_have_no_leading_zeros() {
    let endpoint = Endpoint { octets: [1, 20, 100, 9], port: 8080 };
    let mut buf = [0u8; URL_BUFFER_LEN];
    let url = request_url(&endpoint, &mut buf).unwrap();
    assert!(url.starts_with("http://1.20.100.9:8080 "));
}

#[test]
fn a_short_buffer_is_refused_at_every_length() {
    for len in 0..67 {
        let mut buf = vec![0u8; len];
        assert_eq!(request_url(&remote_endpoint(), &mut buf), Err(BufferTooShort));
    }
    let mut buf = vec![0u8; 67];
    assert!(request_url(&remote_endpoint(), &mut buf).is_ok());
}

#[test]
fn addresses_with_the_same_digits_have_different_urls() {
    let mut first = [0u8; URL_BUFFER_LEN];
    let mut second = [0u8; URL_BUFFER_LEN];
    let a = Endpoint { octets: [1, 11, 1, 1], port: 80 };
    let b = Endpoint { octets: [11, 1, 1, 1], port: 80 };
    assert_ne!(request_url(&a, &mut first), request_url(&b, &mut second));
}
