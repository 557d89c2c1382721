//! Worker records, eligibility filtering, and the command builders.

use bulk_runner::automatec::AutomateCBuilder;
use bulk_runner::bot::{BaseBot, Bot, BotStatus, BotStatusNotReady, BotStatusReady};
use bulk_runner::command_builder::{handle_quoted, AutomateBuilderBase};
use bulk_runner::error::Error;
use bulk_runner::packets::{Dispatchable, Packet};

fn bot(name: &str, status: BotStatus) -> Bot {
    Bot {
        name: name.to_string(),
        status,
    }
}

#[test]
fn status_parsing_is_case_insensitive() {
    assert_eq!(BotStatus::parse("idle"), BotStatus::Ready(BotStatusReady::Idle));
    assert_eq!(BotStatus::parse("IDLE"), BotStatus::Ready(BotStatusReady::Idle));
    assert_eq!(BotStatus::parse("Pending"), BotStatus::Ready(BotStatusReady::Pending));
    assert_eq!(BotStatus::parse("logged out"), BotStatus::Ready(BotStatusReady::LoggedOut));
    assert_eq!(BotStatus::parse("offline"), BotStatus::NotReady(BotStatusNotReady::Offline));
    assert_eq!(BotStatus::parse("Private"), BotStatus::NotReady(BotStatusNotReady::Private));
    assert_eq!(
        BotStatus::parse("UNAVAILABLE"),
        BotStatus::NotReady(BotStatusNotReady::Unavailable)
    );
}

#[test]
fn unparseable_status_coerces_to_unavailable() {
    assert_eq!(
        BotStatus::parse("definitely not a status"),
        BotStatus::NotReady(BotStatusNotReady::Unavailable)
    );
    assert_eq!(BotStatus::parse(""), BotStatus::NotReady(BotStatusNotReady::Unavailable));
}

#[test]
fn status_text_round_trips() {
    let all = [
        BotStatus::Ready(BotStatusReady::Idle),
        BotStatus::Ready(BotStatusReady::Pending),
        BotStatus::Ready(BotStatusReady::LoggedOut),
        BotStatus::NotReady(BotStatusNotReady::Offline),
        BotStatus::NotReady(BotStatusNotReady::Private),
        BotStatus::NotReady(BotStatusNotReady::Unavailable),
    ];
    for status in all {
        assert_eq!(BotStatus::parse(&status.text()), status);
    }
}

#[test]
fn base_bot_fills_name_and_status() {
    let base = BaseBot::new(Some("bot07".to_string()), Some("logged out".to_string()));
    let filled = Bot::from_base(base);
    assert_eq!(filled.name, "BOT07");
    assert_eq!(filled.status, BotStatus::Ready(BotStatusReady::LoggedOut));

    let empty = Bot::from_base(BaseBot::new(None, None));
    assert_eq!(empty.name, "");
    assert_eq!(empty.status, BotStatus::NotReady(BotStatusNotReady::Unavailable));
}

#[test]
fn filter_excludes_pending_and_not_ready() {
    assert!(bot("A", BotStatus::Ready(BotStatusReady::Pending)).is_available().is_none());
    assert!(bot("A", BotStatus::NotReady(BotStatusNotReady::Offline)).is_available().is_none());
    assert!(bot("A", BotStatus::NotReady(BotStatusNotReady::Private)).is_available().is_none());
    assert!(bot("A", BotStatus::NotReady(BotStatusNotReady::Unavailable))
        .is_available()
        .is_none());
}

#[test]
fn filter_admits_idle_and_logged_out_normalized() {
    let idle = bot("A", BotStatus::Ready(BotStatusReady::Idle)).is_available().unwrap();
    assert_eq!(idle.name, "A");
    assert_eq!(idle.status, BotStatus::Ready(BotStatusReady::Idle));

    let out = bot("B", BotStatus::Ready(BotStatusReady::LoggedOut)).if_available().unwrap();
    assert_eq!(out.name, "B");
    assert_eq!(out.status, BotStatus::Ready(BotStatusReady::Idle));

    assert!(bot("B", BotStatus::Ready(BotStatusReady::LoggedOut)).is_logged_out());
    assert!(!bot("A", BotStatus::Ready(BotStatusReady::Idle)).is_logged_out());
}

#[test]
fn collected_packets_normalize_logged_out() {
    let packets = vec![
        Packet::new(bot("A", BotStatus::Ready(BotStatusReady::LoggedOut)), "Job".to_string()),
        Packet::new(bot("B", BotStatus::Ready(BotStatusReady::Idle)), "Job".to_string()),
        Packet::new(
            bot("C", BotStatus::NotReady(BotStatusNotReady::Offline)),
            "Job".to_string(),
        ),
    ];
    let dispatchable = Dispatchable::from_packets(packets);
    assert_eq!(dispatchable.bots.len(), 3);
    assert_eq!(dispatchable.bots[0].bot.status, BotStatus::Ready(BotStatusReady::Idle));
    assert_eq!(dispatchable.bots[1].bot.status, BotStatus::Ready(BotStatusReady::Idle));
    assert_eq!(dispatchable.bots[2].bot.status, BotStatus::NotReady(BotStatusNotReady::Offline));
    assert_eq!(dispatchable.bots[0].bot.name, "A");
    assert_eq!(dispatchable.bots[0].process_name, "Job");
}

#[test]
fn worker_name_with_space_is_quoted() {
    assert_eq!(handle_quoted("bot one"), "\"bot one\"");
    assert_eq!(handle_quoted("botone"), "botone");
    assert_eq!(handle_quoted("a\"b"), "\"a\"b\"");
    assert_eq!(handle_quoted(""), "");

    let cmd = AutomateBuilderBase::new()
        .with_sso()
        .with_process("AutomatedProcess")
        .with_resource("bot one")
        .build();
    assert_eq!(
        cmd.into_args(),
        vec![
            "/sso".to_string(),
            "/run".to_string(),
            "AutomatedProcess".to_string(),
            "/resource".to_string(),
            "\"bot one\"".to_string(),
        ]
    );
}

#[test]
fn builder_appends_credentials_quoted() {
    let cmd = AutomateBuilderBase::new()
        .with_user("user name")
        .with_password("pass word")
        .build();
    assert_eq!(
        cmd.into_args(),
        vec![
            "/user".to_string(),
            "\"user name\"".to_string(),
            "/password".to_string(),
            "\"pass word\"".to_string(),
        ]
    );
}

#[test]
fn configured_builder_checks_the_path() {
    let missing = AutomateCBuilder::new(Some("C:\\nowhere\\automatec.exe".to_string()), false, false);
    assert!(matches!(missing, Err(Error::AutomateCNotFound)));

    let not_a_file = AutomateCBuilder::new(Some("C:\\temp".to_string()), true, false);
    match not_a_file {
        Err(Error::AutomateC(p)) => assert_eq!(p, "C:\\temp"),
        other => panic!("expected a not-a-file error, got {:?}", other.map(|_| ())),
    }

    let ok = AutomateCBuilder::new(Some("C:\\tools\\automatec.exe".to_string()), true, true).unwrap();
    let built = ok.with_sso().with_process("Job").with_resource("BOT").build();
    assert_eq!(built.exe_path, "C:\\tools\\automatec.exe");
    assert_eq!(built.args, vec!["/sso", "/run", "Job", "/resource", "BOT"]);

    let fallback = AutomateCBuilder::new(None, false, false).unwrap().build();
    assert_eq!(
        fallback.exe_path,
        "C:\\Program Files\\Blue Prism Limited\\Blue Prism Automate\\automatec.exe"
    );
}
