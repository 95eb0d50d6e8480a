use bgpq3::{Bgpq3, Bgpq3Query, Bgpq3Settings, CommandLine, Version};

fn args_of(command: &CommandLine) -> Vec<&str> {
    command.args().iter().map(|arg| arg.as_str()).collect()
}

#[test]
fn bin_names() {
    assert_eq!(Version::Bgpq3.bin_name(), "bgpq3");
    assert_eq!(Version::Bgpq4.bin_name(), "bgpq4");
}

#[test]
fn default_version_is_bgpq3() {
    assert_eq!(Version::default(), Version::Bgpq3);
    assert_eq!(Bgpq3Settings::new().selected_version(), Version::Bgpq3);
    assert_eq!(Bgpq3Settings::default().selected_version(), Version::Bgpq3);
}

#[test]
fn builder_selects_the_version() {
    let settings = Bgpq3Settings::new().version(Version::Bgpq4);
    assert_eq!(settings.selected_version(), Version::Bgpq4);
    let back = settings.version(Version::Bgpq3);
    assert_eq!(back.selected_version(), Version::Bgpq3);
}

#[test]
fn wrappers_keep_their_settings() {
    assert_eq!(Bgpq3::new().settings().selected_version(), Version::Bgpq3);
    assert_eq!(Bgpq3::default().settings().selected_version(), Version::Bgpq3);
    assert_eq!(Bgpq3::bgpq3().settings().selected_version(), Version::Bgpq3);
    assert_eq!(Bgpq3::bgpq4().settings().selected_version(), Version::Bgpq4);
    assert_eq!(Bgpq3::builder().selected_version(), Version::Bgpq3);
    let built = Bgpq3::builder().version(Version::Bgpq4).build();
    assert_eq!(built.settings().selected_version(), Version::Bgpq4);
}

#[test]
fn with_settings_leaves_the_settings_usable() {
    let settings = Bgpq3Settings::new().version(Version::Bgpq4);
    let first = Bgpq3::with_settings(&settings);
    let second = Bgpq3::with_settings(&settings);
    assert_eq!(first.settings().selected_version(), Version::Bgpq4);
    assert_eq!(second.clone().settings().selected_version(), Version::Bgpq4);
    assert_eq!(settings.selected_version(), Version::Bgpq4);
}

#[test]
fn ipv4_command_has_no_family_flag() {
    let command = Bgpq3Query::as_set("AS-RAPPET").build_command(Bgpq3::new().settings(), false);
    assert_eq!(command.program(), "bgpq3");
    assert_eq!(args_of(&command), vec!["-j", "AS-RAPPET"]);
}

#[test]
fn ipv6_command_has_the_family_flag() {
    let command = Bgpq3Query::as_set("AS-RAPPET").build_command(Bgpq3::new().settings(), true);
    assert_eq!(command.program(), "bgpq3");
    assert_eq!(args_of(&command), vec!["-j", "-6", "AS-RAPPET"]);
}

#[test]
fn bgpq4_command_runs_bgpq4() {
    let wrapper = Bgpq3::bgpq4();
    let v4 = Bgpq3Query::asn(207968).build_command(wrapper.settings(), false);
    assert_eq!(v4.program(), "bgpq4");
    assert_eq!(args_of(&v4), vec!["-j", "AS207968"]);
    let v6 = Bgpq3Query::asn(207968).build_command(wrapper.settings(), true);
    assert_eq!(v6.program(), "bgpq4");
    assert_eq!(args_of(&v6), vec!["-j", "-6", "AS207968"]);
}

#[test]
fn query_is_always_the_final_argument() {
    for text in ["AS-RAPPET", "", "-6", "-j", "a b c"] {
        for ipv6 in [false, true] {
            let command = Bgpq3Query::as_set(text).build_command(&Bgpq3Settings::new(), ipv6);
            let args = args_of(&command);
            assert_eq!(args.last().copied(), Some(text));
            assert_eq!(args[0], "-j");
            let options = &args[..args.len() - 1];
            assert_eq!(options.contains(&"-6"), ipv6);
            assert_eq!(args.len(), if ipv6 { 3 } else { 2 });
        }
    }
}

#[test]
fn command_line_of_given_parts() {
    let command = CommandLine::new("bgpq4".to_string(), vec!["-j".to_string(), "AS1".to_string()]);
    assert_eq!(command.program(), "bgpq4");
    assert_eq!(args_of(&command), vec!["-j", "AS1"]);
    assert_eq!(args_of(&command.clone()), vec!["-j", "AS1"]);
}
