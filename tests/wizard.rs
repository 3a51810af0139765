use lustats_config::{gate_answer, normalize_oauth, parse_cooldown, Step, Wizard};

fn feed(w: &mut Wizard, lines: &[&str]) {
    for l in lines {
        assert!(w.answer(l.to_string()), "answer {:?} rejected at {:?}", l, w.step());
    }
}

#[test]
fn oauth_prefix_is_removed() {
    assert_eq!(normalize_oauth("oauth:abc123".to_string()), "abc123");
    assert_eq!(normalize_oauth("oauth:".to_string()), "");
    assert_eq!(normalize_oauth("oauth:oauth:x".to_string()), "oauth:x");
}

#[test]
fn oauth_without_prefix_is_kept() {
    assert_eq!(normalize_oauth("abc123".to_string()), "abc123");
    assert_eq!(normalize_oauth("".to_string()), "");
    assert_eq!(normalize_oauth("OAUTH:abc".to_string()), "OAUTH:abc");
    assert_eq!(normalize_oauth("oauth".to_string()), "oauth");
    let once = normalize_oauth("oauth:tok".to_string());
    assert_eq!(normalize_oauth(once.clone()), once);
}

#[test]
fn gate_accepts_y_and_n_in_either_case() {
    assert_eq!(gate_answer("y"), Some(true));
    assert_eq!(gate_answer("Y"), Some(true));
    assert_eq!(gate_answer("n"), Some(false));
    assert_eq!(gate_answer("N"), Some(false));
}

#[test]
fn gate_rejects_anything_else() {
    for s in ["", "yes", "no", "x", "yy", "1", " y", "ÿ"] {
        assert_eq!(gate_answer(s), None, "{:?}", s);
    }
}

#[test]
fn cooldown_accepts_range_bounds() {
    assert_eq!(parse_cooldown("0"), Some(0));
    assert_eq!(parse_cooldown("65535"), Some(65535));
    assert_eq!(parse_cooldown("30"), Some(30));
    assert_eq!(parse_cooldown("007"), Some(7));
    assert_eq!(parse_cooldown("+12"), Some(12));
}

#[test]
fn cooldown_rejects_bad_numbers() {
    for s in ["", "+", "-1", "-0", "65536", "99999999999999999999", "abc", "12a", "1.5", " 5", "٣"] {
        assert_eq!(parse_cooldown(s), None, "{:?}", s);
    }
}

#[test]
fn wizard_declined_sections() {
    let mut w = Wizard::new();
    assert_eq!(w.step(), Step::Email);
    feed(&mut w, &["me@x.y", "pw", "bot", "oauth:tok", "chan", "10", "n", "n"]);
    assert!(w.is_done());
    let c = w.into_config().expect("done");
    assert!(c.rtmp.is_none());
    assert!(c.custom_port_names.is_none());
    assert_eq!(c.twitch.commands, vec!["!lustats", "!liveustats", "!lus"]);
    assert_eq!(c.twitch.bot_oauth, "tok");
    assert_eq!(c.twitch.command_cooldown, 10);
    assert_eq!(c.liveu.email, "me@x.y");
    assert_eq!(c.liveu.password, "pw");
    assert_eq!(c.twitch.bot_username, "bot");
    assert_eq!(c.twitch.channel, "chan");
}

#[test]
fn wizard_unit_name_defaults() {
    let mut w = Wizard::new();
    feed(&mut w, &["e", "p", "u", "o", "c", "0", "N", "Y", "", "Air", "", "Cell"]);
    let c = w.into_config().expect("done");
    assert!(c.rtmp.is_none());
    let u = c.custom_port_names.expect("names collected");
    assert_eq!(u.ethernet, "ETH");
    assert_eq!(u.wifi, "Air");
    assert_eq!(u.usb1, "USB1");
    assert_eq!(u.usb2, "Cell");
}

#[test]
fn wizard_collects_rtmp() {
    let mut w = Wizard::new();
    feed(&mut w, &["e", "p", "u", "o", "c", "65535", "y", "http://h/stat", "app", "key", "n"]);
    let c = w.into_config().expect("done");
    let r = c.rtmp.expect("rtmp collected");
    assert_eq!((r.url.as_str(), r.application.as_str(), r.key.as_str()), ("http://h/stat", "app", "key"));
    assert!(c.custom_port_names.is_none());
}

#[test]
fn wizard_repeats_rejected_questions() {
    let mut w = Wizard::new();
    feed(&mut w, &["e", "p", "u", "o", "c"]);
    assert_eq!(w.step(), Step::CommandCooldown);
    for bad in ["abc", "-5", "65536", ""] {
        assert!(!w.answer(bad.to_string()));
        assert_eq!(w.step(), Step::CommandCooldown);
    }
    assert!(w.answer("5".to_string()));
    assert_eq!(w.step(), Step::RtmpGate);
    for bad in ["maybe", "", "yes"] {
        assert!(!w.answer(bad.to_string()));
        assert_eq!(w.step(), Step::RtmpGate);
    }
    assert!(w.answer("n".to_string()));
    assert_eq!(w.step(), Step::UnitNamesGate);
    assert!(!w.answer("q".to_string()));
    assert_eq!(w.step(), Step::UnitNamesGate);
    assert!(w.answer("n".to_string()));
    assert!(w.is_done());
    assert!(!w.answer("extra".to_string()));
    let c = w.into_config().expect("done");
    assert_eq!(c.twitch.command_cooldown, 5);
}

#[test]
fn unfinished_wizard_has_no_config() {
    let mut w = Wizard::new();
    feed(&mut w, &["e", "p"]);
    assert!(w.into_config().is_none());
}
