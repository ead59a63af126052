use wifi_fetch::phases::Phased;
use wifi_fetch::picow::boot::{BootAction, BootEvent, BootStage};
use wifi_fetch::picow::fetch::{
    FetchAction, FetchEvent, FetchStage, Report, ANSWER_BUFFER_LEN, CLIENT_BUFFER_LEN,
    CLIENT_CONNECTIONS,
};
use wifi_fetch::picow::program::{Program, ProgramEvent};
use wifi_fetch::request::URL_BUFFER_LEN;
use wifi_fetch::steps::UnexpectedEvent;

const URL: &str = "http://142.250.185.115:80 GET / HTTP/1.0\r\nHost: www.mobile-j.de\r\n\r\n";

/// An outside world in which the first calls of each kind fail.
struct World {
    joins: u32,
    requests: u32,
    sends: u32,
    bodies: u32,
    sleeps: Vec<u64>,
    seeds: Vec<u64>,
    log: Vec<&'static str>,
}

impl World {
    fn new() -> World {
        World {
            joins: 0,
            requests: 0,
            sends: 0,
            bodies: 0,
            sleeps: Vec::new(),
            seeds: Vec::new(),
            log: Vec::new(),
        }
    }

    fn perform(&mut self, program: &Program) -> ProgramEvent<&'static [u8]> {
        match program.action() {
            Phased::Starting(action) => Phased::Starting(match action {
                BootAction::DrawSeed => {
                    self.log.push("seed");
                    BootEvent::Seed(42)
                }
                BootAction::StartStack { seed, retry: _, sockets: _ } => {
                    self.seeds.push(seed);
                    self.log.push("stack");
                    BootEvent::Done
                }
                BootAction::Join { ssid: _, passphrase: _ } => {
                    self.log.push("join");
                    self.joins += 1;
                    BootEvent::Join { ok: self.joins > 3 }
                }
                BootAction::Pause(ms) => {
                    self.sleeps.push(ms);
                    BootEvent::Done
                }
                BootAction::AwaitConfig => {
                    self.log.push("address");
                    BootEvent::Done
                }
                BootAction::SpawnBlink => {
                    self.log.push("blink");
                    BootEvent::Done
                }
                BootAction::Proceed | BootAction::Halt => panic!("the start has ended"),
                _ => BootEvent::Done,
            }),
            Phased::Working(action) => Phased::Working(match action {
                FetchAction::Request(url) => {
                    assert_eq!(url, URL);
                    self.log.push("request");
                    self.requests += 1;
                    FetchEvent::Request { ok: self.requests > 2 }
                }
                FetchAction::Send => {
                    self.sends += 1;
                    FetchEvent::Send { ok: self.sends > 1 }
                }
                FetchAction::ReadBody => {
                    self.bodies += 1;
                    FetchEvent::Body(b"page")
                }
                FetchAction::Pause(ms) => {
                    self.sleeps.push(ms);
                    FetchEvent::Done
                }
                FetchAction::Halt => panic!("the loop has ended"),
            }),
        }
    }
}

#[test]
fn the_calls_of_the_pico_balance_at_each_rest() {
    let mut buf = [0u8; URL_BUFFER_LEN];
    let mut program = Program::new("home", "secret", &mut buf);
    let mut world = World::new();
    let mut reports = 0;
    let mut rests = 0;
    while rests < 5 {
        if program.stage == Phased::Working(FetchStage::Resting) {
            rests += 1;
            assert_eq!(reports, rests);
            assert_eq!(world.bodies, rests);
            assert_eq!(world.joins, 3 + 1);
            assert_eq!(world.requests, rests + 2);
            assert_eq!(world.sends, rests + 1);
            let short = world.sleeps.iter().filter(|ms| **ms == 5000).count();
            let long = world.sleeps.iter().filter(|ms| **ms == 10_000).count();
            assert_eq!(short, 3 + 2 + 1);
            assert_eq!(long as u32, rests - 1);
            assert_eq!(short + long, world.sleeps.len());
        }
        let event = world.perform(&program);
        match program.step(event).unwrap() {
            Some(report) => {
                assert_eq!(report, Report::Body("page"));
                reports += 1;
            }
            None => {}
        }
    }
    assert_eq!(world.seeds, [42]);
    assert_eq!(
        world.log[..10],
        [
            "seed", "stack", "join", "join", "join", "join", "address", "blink", "request",
            "request"
        ]
    );
    assert!(world.log[10..].iter().all(|call| *call == "request"));
}

#[test]
fn the_pico_requests_only_after_its_start() {
    let mut program = Program {
        ssid: "home",
        psk: "secret",
        url: URL,
        stage: Phased::Starting(BootStage::Joining),
    };
    assert_eq!(
        program.step(Phased::Working(FetchEvent::Request { ok: true })),
        Err(UnexpectedEvent)
    );
    for event in [BootEvent::Join { ok: true }, BootEvent::Done] {
        assert_eq!(program.step(Phased::Starting(event)), Ok(None));
        assert_eq!(
            program.step(Phased::Working(FetchEvent::Request { ok: true })),
            Err(UnexpectedEvent)
        );
    }
    assert_eq!(program.action(), Phased::Starting(BootAction::SpawnBlink));
    assert_eq!(program.step(Phased::Starting(BootEvent::Done)), Ok(None));
    assert_eq!(program.stage, Phased::Working(FetchStage::Requesting));
    assert_eq!(program.action(), Phased::Working(FetchAction::Request(URL)));
    assert_eq!(program.step(Phased::Starting(BootEvent::Done)), Err(UnexpectedEvent));
    assert_eq!((program.ssid, program.psk, program.url), ("home", "secret", URL));
}

#[test]
fn a_pico_that_stops_takes_no_more_events() {
    for (stage, event) in [
        (
            Phased::Starting(BootStage::SpawningBlink),
            Phased::Starting(BootEvent::Failed),
        ),
        (
            Phased::Working(FetchStage::ReadingBody),
            Phased::Working(FetchEvent::BodyFailed),
        ),
    ] {
        let mut program = Program { ssid: "", psk: "", url: "", stage };
        assert_eq!(program.step(event), Ok(None));
        assert!(matches!(
            program.action(),
            Phased::Starting(BootAction::Halt) | Phased::Working(FetchAction::Halt)
        ));
        assert_eq!(program.step(Phased::Starting(BootEvent::Done)), Err(UnexpectedEvent));
        assert_eq!(program.step(Phased::Working(FetchEvent::Done)), Err(UnexpectedEvent));
    }
}

#[test]
fn the_client_has_its_sizes() {
    assert_eq!(
        (CLIENT_CONNECTIONS, CLIENT_BUFFER_LEN, ANSWER_BUFFER_LEN),
        (1, 4096, 4096)
    );
}
