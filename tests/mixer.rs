use soundkid::mixer::mixer_args;

#[test]
fn volume_up_args() {
    assert_eq!(mixer_args("Master", true), vec!["set".to_string(), "Master".to_string(), "5%+".to_string()]);
}

#[test]
fn volume_down_args() {
    assert_eq!(mixer_args("PCM", false), vec!["set".to_string(), "PCM".to_string(), "5%-".to_string()]);
}
