use dop54::io_config::Config;
use dop54::n_body::NBody;

#[test]
fn config_from_two_arguments() {
    let args = vec![String::from("solver"), String::from("setting.yaml")];
    let config = Config::new(&args).unwrap();
    assert_eq!(config.build_command, "solver");
    assert_eq!(config.file_name, "setting.yaml");
}

#[test]
fn config_ignores_extra_arguments() {
    let args = vec![
        String::from("solver"),
        String::from("setting.yaml"),
        String::from("ignored"),
    ];
    let config = Config::new(&args).unwrap();
    assert_eq!(config.build_command, "solver");
    assert_eq!(config.file_name, "setting.yaml");
}

#[test]
fn config_rejects_short_argument_list() {
    let args = vec![String::from("solver")];
    let err = Config::new(&args).unwrap_err();
    assert_eq!(err, "Not enough arguments");
    let none: Vec<String> = Vec::new();
    let err2 = Config::new(&none).unwrap_err();
    assert_eq!(err2, "Not enough arguments");
}

#[test]
fn n_body_consistent_description() {
    let body = NBody {
        setting_name: String::from("two-body"),
        number_of_bodies: 2,
        mass_len: 2,
        position_len: 2,
    };
    let checked = body.check().unwrap();
    assert_eq!(checked.number_of_bodies, 2);
}

#[test]
fn n_body_mass_length_mismatch() {
    let body = NBody {
        setting_name: String::from("two-body"),
        number_of_bodies: 2,
        mass_len: 1,
        position_len: 2,
    };
    assert_eq!(body.check().unwrap_err(), "mass.len() != number_of_bodies");
}

#[test]
fn n_body_position_length_mismatch() {
    let body = NBody {
        setting_name: String::from("two-body"),
        number_of_bodies: 2,
        mass_len: 2,
        position_len: 3,
    };
    assert_eq!(
        body.check().unwrap_err(),
        "position.len() != number_of_bodies"
    );
}
