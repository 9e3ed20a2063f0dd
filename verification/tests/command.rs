use lamplighter::command::{
    build_submission, plan_command, CliRequest, CommandStep, LightCommand, Target,
};
use lamplighter::directory::{DirectoryFetch, Light};

fn one_lamp(id: usize, name: &str) -> DirectoryFetch {
    DirectoryFetch::Listing(vec![Light { id, name: name.to_string() }])
}

#[test]
fn builders_compose() {
    let c = LightCommand::default();
    assert_eq!(c.on, None);
    assert_eq!(c.bri, None);
    let c = LightCommand::default().on();
    assert_eq!(c.on, Some(true));
    assert_eq!(c.bri, None);
    let c = LightCommand::default().off();
    assert_eq!(c.on, Some(false));
    assert_eq!(c.bri, None);
    let c = LightCommand::default().on().with_bri(77);
    assert_eq!(c.on, Some(true));
    assert_eq!(c.bri, Some(77));
}

#[test]
fn on_lamp_submits_on_command() {
    let step = plan_command(CliRequest::On(Target::Lamp("Lamp".to_string())));
    let (lamp, command) = match step {
        CommandStep::ResolveAndSubmit { lamp, command } => (lamp, command),
        _ => panic!("expected ResolveAndSubmit"),
    };
    assert_eq!(lamp, "Lamp");
    assert_eq!(command.on, Some(true));
    assert_eq!(command.bri, None);
    let sub = build_submission(&lamp, command, &one_lamp(3, "Lamp")).unwrap();
    assert_eq!(sub.light_id, 3);
    assert_eq!(sub.command.on, Some(true));
    assert_eq!(sub.command.bri, None);
}

#[test]
fn off_lamp_submits_off_command() {
    let step = plan_command(CliRequest::Off(Target::Lamp("Lamp".to_string())));
    let (lamp, command) = match step {
        CommandStep::ResolveAndSubmit { lamp, command } => (lamp, command),
        _ => panic!("expected ResolveAndSubmit"),
    };
    assert_eq!(command.on, Some(false));
    assert_eq!(command.bri, None);
    let sub = build_submission(&lamp, command, &one_lamp(8, "lamp")).unwrap();
    assert_eq!(sub.light_id, 8);
    assert_eq!(sub.command.on, Some(false));
}

#[test]
fn dim_lamp_submits_on_with_brightness() {
    let step = plan_command(CliRequest::Dim {
        lamp: "Lamp".to_string(),
        brightness: "50%".to_string(),
    });
    let (lamp, command) = match step {
        CommandStep::ResolveAndSubmit { lamp, command } => (lamp, command),
        _ => panic!("expected ResolveAndSubmit"),
    };
    assert_eq!(lamp, "Lamp");
    assert_eq!(command.on, Some(true));
    assert_eq!(command.bri, Some(127));
    let sub = build_submission(&lamp, command, &one_lamp(5, "Lamp")).unwrap();
    assert_eq!(sub.light_id, 5);
    assert_eq!(sub.command.on, Some(true));
    assert_eq!(sub.command.bri, Some(127));
}

#[test]
fn dim_with_raw_byte_brightness() {
    let step = plan_command(CliRequest::Dim {
        lamp: "Desk".to_string(),
        brightness: "200".to_string(),
    });
    match step {
        CommandStep::ResolveAndSubmit { command, .. } => {
            assert_eq!(command.on, Some(true));
            assert_eq!(command.bri, Some(200));
        }
        _ => panic!("expected ResolveAndSubmit"),
    }
}

#[test]
fn dim_with_invalid_brightness_is_rejected() {
    let step = plan_command(CliRequest::Dim {
        lamp: "Lamp".to_string(),
        brightness: "101%".to_string(),
    });
    assert!(matches!(step, CommandStep::RejectBrightness));
}

#[test]
fn group_commands_are_unsupported_stubs() {
    let step = plan_command(CliRequest::On(Target::Group("Lounge".to_string())));
    match step {
        CommandStep::GroupUnsupported { group, on } => {
            assert_eq!(group, "Lounge");
            assert!(on);
        }
        _ => panic!("expected GroupUnsupported"),
    }
    let step = plan_command(CliRequest::Off(Target::Group("Lounge".to_string())));
    match step {
        CommandStep::GroupUnsupported { group, on } => {
            assert_eq!(group, "Lounge");
            assert!(!on);
        }
        _ => panic!("expected GroupUnsupported"),
    }
}

#[test]
fn unknown_lamp_submits_nothing() {
    let step = plan_command(CliRequest::On(Target::Lamp("Cellar".to_string())));
    let (lamp, command) = match step {
        CommandStep::ResolveAndSubmit { lamp, command } => (lamp, command),
        _ => panic!("expected ResolveAndSubmit"),
    };
    assert!(build_submission(&lamp, command, &one_lamp(3, "Lamp")).is_none());
}

#[test]
fn failed_fetch_submits_nothing() {
    let command = LightCommand::default().on();
    assert!(build_submission("Lamp", command, &DirectoryFetch::FetchFailed).is_none());
}
