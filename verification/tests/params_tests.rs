use ezo_rtd::params::{BpsRate, CommandBuilder, CommandOptions, CommandResponse};

#[test]
fn builder_order_does_not_matter() {
    let mut a = CommandOptions::default();
    a.set_command("CAL,?".to_string());
    a.set_delay(300);
    a.set_response(CommandResponse::CalibrationState);

    let mut b = CommandOptions::default();
    b.set_response(CommandResponse::CalibrationState);
    b.set_delay(300);
    b.set_command("CAL,?".to_string());

    assert_eq!(a.finish(), b.finish());
}

#[test]
fn builder_later_setting_wins() {
    let mut a = CommandOptions::default();
    a.set_delay(100);
    a.set_delay(300);
    assert_eq!(a.delay, Some(300));
}

#[test]
fn default_options_are_empty() {
    let opts = CommandOptions::default();
    assert_eq!(opts.command, "");
    assert_eq!(opts.delay, None);
    assert_eq!(opts.response, None);
}

#[test]
fn finish_takes_a_snapshot() {
    let mut opts = CommandOptions::default();
    opts.set_command("STATUS".to_string());
    opts.set_response(CommandResponse::Status);
    let snap = opts.finish();
    assert_eq!(snap, opts);
    opts.set_delay(300);
    assert_ne!(snap, opts);
}

#[test]
fn baud_rates_have_their_values() {
    assert_eq!(BpsRate::Bps300.bps(), 300);
    assert_eq!(BpsRate::Bps1200.bps(), 1200);
    assert_eq!(BpsRate::Bps2400.bps(), 2400);
    assert_eq!(BpsRate::Bps9600.bps(), 9600);
    assert_eq!(BpsRate::Bps19200.bps(), 19200);
    assert_eq!(BpsRate::Bps38400.bps(), 38400);
    assert_eq!(BpsRate::Bps57600.bps(), 57600);
    assert_eq!(BpsRate::Bps115200.bps(), 115200);
}
