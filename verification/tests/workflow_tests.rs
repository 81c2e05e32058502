use term_menu::workflow::{
    attach_args, bytes_eq, contains_sub, drop_name, first_token, parse_connected_outputs,
    position_flag,
};

fn lines_of(text: &[&str]) -> Vec<Vec<u8>> {
    text.iter().map(|l| l.as_bytes().to_vec()).collect()
}

#[test]
fn contains_sub_finds_and_rejects() {
    assert!(contains_sub(b"HDMI-1 connected primary", b" connected"));
    assert!(!contains_sub(b"HDMI-2 disconnected", b" connected"));
    assert!(!contains_sub(b"short", b"much longer needle"));
    // The empty needle occurs in anything.
    assert!(contains_sub(b"", b""));
    assert!(contains_sub(b"abc", b""));
}

#[test]
fn first_token_takes_leading_word() {
    assert_eq!(first_token(b"DP-1 connected 1920x1080"), Some(b"DP-1".to_vec()));
    assert_eq!(first_token(b"   padded name"), Some(b"padded".to_vec()));
    assert_eq!(first_token(b"   \t  "), None);
    assert_eq!(first_token(b""), None);
}

#[test]
fn bytes_eq_compares_contents() {
    assert!(bytes_eq(b"DP-1", b"DP-1"));
    assert!(!bytes_eq(b"DP-1", b"DP-2"));
    assert!(!bytes_eq(b"DP-1", b"DP-11"));
}

#[test]
fn parse_picks_connected_outputs_and_primary() {
    let lines = lines_of(&[
        "Screen 0: minimum 320 x 200, current 3840 x 1080",
        "eDP-1 connected primary 1920x1080+0+0 (normal left inverted) 344mm x 194mm",
        "   1920x1080     60.05*+  60.01    59.97",
        "HDMI-1 connected 1920x1080+1920+0 (normal left inverted) 527mm x 296mm",
        "DP-1 disconnected (normal left inverted right x axis y axis)",
    ]);
    let parsed = parse_connected_outputs(&lines);
    assert_eq!(parsed.connected, vec![b"eDP-1".to_vec(), b"HDMI-1".to_vec()]);
    assert_eq!(parsed.primary, Some(b"eDP-1".to_vec()));
}

#[test]
fn parse_without_primary_line() {
    let lines = lines_of(&["HDMI-1 connected 1920x1080+0+0", "DP-1 disconnected"]);
    let parsed = parse_connected_outputs(&lines);
    assert_eq!(parsed.connected, vec![b"HDMI-1".to_vec()]);
    assert_eq!(parsed.primary, None);
}

#[test]
fn drop_name_removes_the_primary() {
    let names = vec![b"eDP-1".to_vec(), b"HDMI-1".to_vec(), b"eDP-1".to_vec()];
    let kept = drop_name(&names, &b"eDP-1".to_vec());
    assert_eq!(kept, vec![b"HDMI-1".to_vec()]);
}

#[test]
fn position_flags_map_as_documented() {
    assert_eq!(position_flag(b"left"), Some(b"left-of".to_vec()));
    assert_eq!(position_flag(b"right"), Some(b"right-of".to_vec()));
    assert_eq!(position_flag(b"above"), Some(b"above".to_vec()));
    assert_eq!(position_flag(b"below"), Some(b"below".to_vec()));
    assert_eq!(position_flag(b"sideways"), None);
}

#[test]
fn attach_args_builds_the_command_line() {
    let args = attach_args(&b"HDMI-1".to_vec(), &b"left-of".to_vec(), &b"eDP-1".to_vec());
    let expect: Vec<Vec<u8>> = vec![
        b"--output".to_vec(),
        b"HDMI-1".to_vec(),
        b"--auto".to_vec(),
        b"--left-of".to_vec(),
        b"eDP-1".to_vec(),
    ];
    assert_eq!(args, expect);
}
