use zero2prod::configuration::{ApplicationSettings, Envireonment};

#[test]
fn environment_names() {
    assert_eq!(Envireonment::Local.as_str(), "local");
    assert_eq!(Envireonment::Production.as_str(), "production");
}

#[test]
fn environment_parsing_ignores_case() {
    assert_eq!(Envireonment::try_from("local".to_string()), Ok(Envireonment::Local));
    assert_eq!(Envireonment::try_from("LOCAL".to_string()), Ok(Envireonment::Local));
    assert_eq!(
        Envireonment::try_from("Production".to_string()),
        Ok(Envireonment::Production)
    );
}

#[test]
fn unsupported_environment_is_refused_with_the_lowercased_name() {
    assert_eq!(
        Envireonment::try_from("Staging".to_string()),
        Err("staging is not a supported envireonment, Use either 'local' or 'production'."
            .to_string())
    );
}

#[test]
fn environment_name_round_trip() {
    for e in [Envireonment::Local, Envireonment::Production] {
        assert_eq!(Envireonment::try_from(e.as_str().to_string()), Ok(e));
        assert_eq!(Envireonment::from_lowercase(e.as_str().to_string()), Ok(e));
    }
}

#[test]
fn from_lowercase_is_exact() {
    assert_eq!(Envireonment::from_lowercase("local".to_string()), Ok(Envireonment::Local));
    assert!(Envireonment::from_lowercase("Local".to_string()).is_err());
    assert!(Envireonment::from_lowercase(" local".to_string()).is_err());
}

#[test]
fn application_settings_hold_their_values() {
    let s = ApplicationSettings { port: 8000, host: "127.0.0.1".to_string() };
    assert_eq!(s.port, 8000);
    assert_eq!(s.host, "127.0.0.1");
}

#[test]
fn absent_environment_setting_means_local() {
    assert_eq!(Envireonment::from_env(None), Ok(Envireonment::Local));
    assert_eq!(Envireonment::from_env(Some("PRODUCTION".to_string())), Ok(Envireonment::Production));
    assert!(Envireonment::from_env(Some("dev".to_string())).is_err());
}

#[test]
fn environment_converts_through_the_std_traits() {
    let e: Result<Envireonment, String> = "Local".to_string().try_into();
    assert_eq!(e, Ok(Envireonment::Local));
    assert_eq!(<Envireonment as TryFrom<String>>::try_from("x".to_string()).is_err(), true);
}
