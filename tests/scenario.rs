use std::cell::RefCell;
use std::ops::Add;

use birthday_greetings::command::{capture, CapturedOutput, CommandError, RuntimeCommand};
use birthday_greetings::greetings::{BirthdayGreetingService, SendService};
use birthday_greetings::lifecycle::ContainerLifecycle;
use birthday_greetings::mail::birthday_greeting;
use birthday_greetings::provision::{build_request, complete_build, existence_request};
use birthday_greetings::readiness::{logs_contain_marker, PollAction, ReadinessPoller};
use birthday_greetings::repository::CsvRepository;
use birthday_greetings::{Date, Employ};
use chrono::{Datelike, Duration};

/// A stand-in for the container runtime and the fake mail receiver inside the container.
#[derive(Default)]
struct FakeRuntime {
    images: RefCell<Vec<String>>,
    server_log: RefCell<String>,
    log_fetches: RefCell<u32>,
    stops: RefCell<u32>,
}

impl FakeRuntime {
    fn run(&self, cmd: &RuntimeCommand) -> Result<CapturedOutput, CommandError> {
        let args = cmd.args();
        match args[0].as_str() {
            "inspect" if args[1] == "fake_smtp" => {
                if self.images.borrow().contains(&args[1]) {
                    capture(true, "[{}]\n", "")
                } else {
                    capture(false, "[]\n", "Error: No such object: fake_smtp\n")
                }
            }
            "inspect" => capture(true, "[{\"NetworkSettings\":{\"IPAddress\":\"10.0.0.5\"}}]\n", ""),
            "build" => {
                self.images.borrow_mut().push(args[2].clone());
                capture(true, "built\n", "")
            }
            "run" => {
                self.server_log.borrow_mut().push_str("booting\n");
                capture(true, "4f2a9c\n", "")
            }
            "logs" => {
                *self.log_fetches.borrow_mut() += 1;
                if *self.log_fetches.borrow() == 3 {
                    self.server_log.borrow_mut().push_str("smtp server started\n");
                }
                capture(true, &self.server_log.borrow(), "")
            }
            "stop" => {
                *self.stops.borrow_mut() += 1;
                capture(true, &args[1], "")
            }
            _ => Err(CommandError::SpawnFailed { reason: "unknown command".to_string(), stdout: String::new(), stderr: String::new() }),
        }
    }
}

/// The application's mail transport, delivering to the fake receiver at `address`.
struct SmtpTo<'a> {
    address: String,
    runtime: &'a FakeRuntime,
}

impl<'a> SendService for SmtpTo<'a> {
    fn send(&self, employ: &Employ) -> Result<(), String> {
        assert_eq!(self.address, "10.0.0.5:2525");
        let mail = birthday_greeting(employ);
        self.runtime.server_log.borrow_mut().push_str(&format!("RCPT TO:<{}>\n", mail.to));
        Ok(())
    }
}

#[test]
fn should_send_one_email_to_paolino_paperino() {
    let today = chrono::Local::now().date_naive();
    let mut csv = String::from("last_name, first_name, date_of_birth, email\n");
    csv.push_str(&format!(
        "Paolino, Paperino, {}, paolino.paperino@dmail.com\n",
        today.with_year(1920).unwrap().format("%Y/%m/%d")
    ));
    csv.push_str(&format!(
        "Paperone, De Paperoni, {}, paperon.depaperoni@dmail.com\n",
        today.add(Duration::days(1)).with_year(1867).unwrap().format("%Y/%m/%d")
    ));

    let runtime = FakeRuntime::default();

    let check = runtime.run(&existence_request("fake_smtp"));
    if let Some(build) = build_request("fake_smtp", "fake_smtp_docker", &check) {
        complete_build(runtime.run(&build)).expect("Cannot build smtp docker image");
    }
    assert_eq!(build_request("fake_smtp", "fake_smtp_docker", &runtime.run(&existence_request("fake_smtp"))), None);

    let mut smtp_server = ContainerLifecycle::new("fake_smtp");
    let start = smtp_server.start_request().unwrap();
    smtp_server.complete_start(runtime.run(&start)).expect("Cannot init smtp server");

    let mut poller = ReadinessPoller::new(5000, 100);
    let mut elapsed: u64 = 0;
    loop {
        poller.check_deadline(elapsed).expect("Cannot init smtp server");
        let logs = runtime.run(&smtp_server.logs_request().unwrap());
        match poller.record_sample(logs.map(|o| logs_contain_marker(&o.stdout, "started"))) {
            PollAction::Ready => break,
            PollAction::Sleep { ms } => elapsed += ms,
        }
    }
    assert!(elapsed < 5000);

    let inspect = smtp_server.inspect_request().unwrap();
    let address = smtp_server.complete_address(runtime.run(&inspect), 2525).unwrap();

    let repository = CsvRepository::read(csv.as_bytes()).unwrap();
    let app = BirthdayGreetingService::new(repository, SmtpTo { address, runtime: &runtime });
    let date = Date { year: today.year(), month: today.month(), day: today.day() };
    assert_eq!(app.send_greetings(date), Ok(()));

    let logs = runtime.run(&smtp_server.logs_request().unwrap()).expect("Cannot read smtp server logs").stdout;

    assert!(logs.contains(&format!("RCPT TO:<{}>", "paolino.paperino@dmail.com")));
    assert!(!logs.contains(&format!("RCPT TO:<{}>", "paperon.depaperoni@dmail.com")));

    if let Some(stop) = smtp_server.stop_request() {
        let _ = runtime.run(&stop);
    }
    assert_eq!(smtp_server.stop_request(), None);
    assert_eq!(*runtime.stops.borrow(), 1);
}
