use bender_config::config::{Config, Janitor};
use bender_config::wizard::{
    Choice, ConfigChoices, FieldKind, FieldValue, FlaskbenderChoices, JanitorChoices,
    PathsChoices, PromptKind, RabbitMQChoices, WorkerChoices, differ, manual_value, prompt_for,
};

fn keep_all() -> ConfigChoices {
    ConfigChoices {
        servername: Choice::Keep,
        paths: PathsChoices { private: Choice::Keep, upload: Choice::Keep },
        flaskbender: FlaskbenderChoices {
            upload_limit: Choice::Keep,
            job_cookie_name: Choice::Keep,
        },
        rabbitmq: RabbitMQChoices { url: Choice::Keep },
        janitor: JanitorChoices {
            checking_period_seconds: Choice::Keep,
            error_deletion_min_minutes: Choice::Keep,
            error_deletion_max_minutes: Choice::Keep,
            finish_deletion_min_minutes: Choice::Keep,
            finish_deletion_max_minutes: Choice::Keep,
            cancel_deletion_min_minutes: Choice::Keep,
            cancel_deletion_max_minutes: Choice::Keep,
        },
        worker: WorkerChoices {
            disklimit: Choice::Keep,
            grace_period: Choice::Keep,
            workload: Choice::Keep,
            heart_rate_seconds: Choice::Keep,
        },
    }
}

fn take_all() -> ConfigChoices {
    ConfigChoices {
        servername: Choice::Take,
        paths: PathsChoices { private: Choice::Take, upload: Choice::Take },
        flaskbender: FlaskbenderChoices {
            upload_limit: Choice::Take,
            job_cookie_name: Choice::Take,
        },
        rabbitmq: RabbitMQChoices { url: Choice::Take },
        janitor: JanitorChoices {
            checking_period_seconds: Choice::Take,
            error_deletion_min_minutes: Choice::Take,
            error_deletion_max_minutes: Choice::Take,
            finish_deletion_min_minutes: Choice::Take,
            finish_deletion_max_minutes: Choice::Take,
            cancel_deletion_min_minutes: Choice::Take,
            cancel_deletion_max_minutes: Choice::Take,
        },
        worker: WorkerChoices {
            disklimit: Choice::Take,
            grace_period: Choice::Take,
            workload: Choice::Take,
            heart_rate_seconds: Choice::Take,
        },
    }
}

#[test]
fn equal_candidate_passes_through_silently() {
    // reconciling against an identical candidate returns every asked field
    // unchanged, whatever the choices would say
    let mut cur = Config::default();
    cur.servername = "mine".to_string();
    cur.worker.workload = 7;
    let cand = Config::deserialize(&cur.serialize().unwrap()).unwrap();
    let r = cur.compare_with_id(Some(&cand), take_all(), "fresh-id".to_string());
    assert_eq!(r.servername, "mine");
    assert_eq!(r.worker.workload, 7);
    assert_eq!(r.worker.id, "fresh-id");
    assert_eq!(r.paths.config, "/etc/bender/config.toml");
}

#[test]
fn prompt_kinds() {
    let a = FieldValue::Uns(60);
    let b = FieldValue::Uns(60);
    let c = FieldValue::Uns(120);
    assert_eq!(prompt_for(&a, Some(&b)), PromptKind::Silent);
    assert_eq!(prompt_for(&a, Some(&c)), PromptKind::Ternary);
    assert_eq!(prompt_for(&a, None), PromptKind::Binary);
}

#[test]
fn ternary_take_yields_candidate() {
    // the operator sees 60 against 120 and picks the candidate
    let r = differ(FieldValue::Uns(60), Some(FieldValue::Uns(120)), Choice::Take);
    assert!(matches!(r, FieldValue::Uns(120)));
}

#[test]
fn ternary_keep_yields_current() {
    let r = differ(FieldValue::Uns(60), Some(FieldValue::Uns(120)), Choice::Keep);
    assert!(matches!(r, FieldValue::Uns(60)));
}

#[test]
fn ternary_manual_yields_entered_value() {
    let r = differ(
        FieldValue::Uns(60),
        Some(FieldValue::Uns(120)),
        Choice::Manual(FieldValue::Uns(90)),
    );
    assert!(matches!(r, FieldValue::Uns(90)));
}

#[test]
fn timeout_scenario_take_candidate() {
    // current checking period 60, candidate 120, operator takes the candidate
    let cur = Janitor::default();
    let mut cand = Janitor::default();
    cand.checking_period_seconds = 120;
    let d = JanitorChoices {
        checking_period_seconds: Choice::Take,
        error_deletion_min_minutes: Choice::Keep,
        error_deletion_max_minutes: Choice::Keep,
        finish_deletion_min_minutes: Choice::Keep,
        finish_deletion_max_minutes: Choice::Keep,
        cancel_deletion_min_minutes: Choice::Keep,
        cancel_deletion_max_minutes: Choice::Keep,
    };
    let r = cur.compare(Some(&cand), d);
    assert_eq!(r.checking_period_seconds, 120);
    assert_eq!(r.cancel_deletion_max_minutes, 15);
}

#[test]
fn ask_with_all_defaults_kept_equals_default_document() {
    let nil = "00000000-0000-0000-0000-000000000000".to_string();
    let r = Config::ask_with_id(keep_all(), nil);
    assert!(r.is_default());
}

#[test]
fn ask_manual_override_wins() {
    let mut d = keep_all();
    d.servername = Choice::Manual(FieldValue::Text("my.farm".to_string()));
    let r = Config::ask_with_id(d, "x".to_string());
    assert_eq!(r.servername, "my.farm");
    assert_eq!(r.rabbitmq.url, "amqp://localhost//");
}

#[test]
fn malformed_manual_integer_reprompts_then_accepts() {
    // the front end parses override text before it may build a choice; on
    // malformed text nothing comes back and it must prompt again
    assert!(manual_value(FieldKind::Uns, "soon").is_none());
    assert!(manual_value(FieldKind::Uns, "12a").is_none());
    assert!(manual_value(FieldKind::Uns, "").is_none());
    assert!(manual_value(FieldKind::Uns, "-3").is_none());
    // the retry with a valid number is accepted
    let v = manual_value(FieldKind::Uns, "120").unwrap();
    assert!(matches!(v, FieldValue::Uns(120)));
    let r = differ(FieldValue::Uns(60), None, Choice::Manual(v));
    assert!(matches!(r, FieldValue::Uns(120)));
}

#[test]
fn manual_signed_and_text_values() {
    assert!(matches!(manual_value(FieldKind::Sig, "-5").unwrap(), FieldValue::Sig(-5)));
    assert!(manual_value(FieldKind::Sig, "five").is_none());
    match manual_value(FieldKind::Text, "anything goes").unwrap() {
        FieldValue::Text(s) => assert_eq!(s, "anything goes"),
        _ => panic!("expected a text value"),
    }
}

#[test]
fn identifier_regenerated_on_compare() {
    let cur = Config::default();
    let cand = Config::default();
    let r = cur.compare(Some(&cand), keep_all());
    // a fresh random identifier, never the stored one
    assert_ne!(r.worker.id, cur.worker.id);
    let id = r.worker.id.as_bytes();
    assert_eq!(id.len(), 36);
    assert_eq!(id[8], b'-');
    assert_eq!(id[13], b'-');
    assert_eq!(id[18], b'-');
    assert_eq!(id[23], b'-');
    for (i, b) in id.iter().enumerate() {
        if i != 8 && i != 13 && i != 18 && i != 23 {
            assert!(b.is_ascii_digit() || (b'a'..=b'f').contains(b));
        }
    }
}

#[test]
fn two_wizard_passes_draw_different_identifiers() {
    let cur = Config::default();
    let a = cur.compare(None, keep_all());
    let b = cur.compare(None, keep_all());
    assert_ne!(a.worker.id, b.worker.id);
}
