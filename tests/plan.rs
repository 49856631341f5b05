use banano_qr::{avatar_url, logo_source, output_path, payment_uri, plan_run, LogoLocation, LogoSource};

#[test]
fn payment_uri_format() {
    assert_eq!(payment_uri("ban_1test", "1.5"), "ban:ban_1test?amount=1.5");
    assert_eq!(payment_uri("", ""), "ban:?amount=");
}

#[test]
fn avatar_url_embeds_address() {
    assert_eq!(
        avatar_url("ban_1test"),
        "https://monkey.banano.cc/api/v1/monkey/ban_1test?format=png&size=100&background=false"
    );
}

#[test]
fn output_path_appends_png() {
    assert_eq!(output_path("out"), "out.png");
    assert_eq!(output_path(""), ".png");
}

#[test]
fn logo_source_by_mode() {
    assert_eq!(logo_source(0), Some(LogoSource::Local));
    assert_eq!(logo_source(1), Some(LogoSource::Remote));
    assert_eq!(logo_source(2), None);
    assert_eq!(logo_source(-1), None);
}

#[test]
fn plan_local_logo() {
    let plan = plan_run("1.5", "ban_1test", "out", 0, "logo.png").unwrap();
    assert_eq!(plan.payload, "ban:ban_1test?amount=1.5");
    assert_eq!(plan.output_path, "out.png");
    match plan.logo {
        LogoLocation::File(p) => assert_eq!(p, "logo.png"),
        LogoLocation::Url(_) => panic!("expected a local logo"),
    }
}

#[test]
fn plan_remote_logo() {
    let plan = plan_run("1.5", "ban_1test", "out", 1, "logo.png").unwrap();
    assert_eq!(plan.output_path, "out.png");
    match plan.logo {
        LogoLocation::Url(u) => assert_eq!(
            u,
            "https://monkey.banano.cc/api/v1/monkey/ban_1test?format=png&size=100&background=false"
        ),
        LogoLocation::File(_) => panic!("expected a remote logo"),
    }
}

#[test]
fn plan_unknown_mode_does_nothing() {
    assert!(plan_run("1.5", "ban_1test", "out", 2, "logo.png").is_none());
}
