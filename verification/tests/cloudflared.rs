use punch::cloudflared::{
    follow_log_file, last_lines, lines, tail_log_file, Cloudflared, CommandLine, LogFollower,
};
use punch::error::ErrorKind;
use std::path::{Path, PathBuf};

fn program() -> Cloudflared {
    Cloudflared::detect(Ok(PathBuf::from("/bin/cloudflared"))).expect("a program")
}

fn causes() -> Vec<String> {
    vec!["why".to_string()]
}

#[test]
fn the_program_is_where_it_was_found() {
    assert_eq!(program().path(), Path::new("/bin/cloudflared"));
    assert_eq!(program().clone().path(), program().path());
    let error = Cloudflared::detect(Err(causes())).unwrap_err();
    assert_eq!(error.kind, ErrorKind::NoCloudflared);
    assert_eq!(error.causes, causes());
}

#[test]
fn the_version_is_what_the_program_writes() {
    let version = program().version(Ok(b"  cloudflared 2026.1\n".to_vec()));
    assert_eq!(version, Ok("cloudflared 2026.1".to_string()));
    let version = program().version(Ok(vec![0x20, 0xff, 0x41]));
    assert_eq!(version, Ok("\u{fffd}A".to_string()));
    let error = program().version(Err(causes())).unwrap_err();
    assert_eq!(error.line(), "读取 cloudflared 版本失败: why");
    assert_eq!(program().version_arguments(), ["--version"]);
}

#[test]
fn a_tunnel_is_run_by_its_token() {
    let arguments: Vec<String> = ["tunnel", "--no-autoupdate", "run", "--token", "tok"]
        .iter()
        .map(|text| text.to_string())
        .collect();
    assert_eq!(
        program().spawn_detached("tok"),
        CommandLine { arguments: arguments.clone(), own_group: true }
    );
    assert_eq!(
        program().spawn_foreground("tok"),
        CommandLine { arguments, own_group: false }
    );
}

#[test]
fn lines_are_those_of_the_standard_library() {
    for text in [
        "", "\n", "a", "a\n", "a\nb", "a\nb\n", "a\r\nb\r\n", "a\r", "\r\n", "a\n\nb", "a\rb\n",
        "x\r\r\n", "中\n文",
    ] {
        let expected: Vec<String> = text.lines().map(|line| line.to_string()).collect();
        assert_eq!(lines(text), expected, "{text:?}");
    }
}

#[test]
fn the_last_lines_are_shown() {
    assert_eq!(last_lines("a\nb\nc\n", 2), ["b", "c"]);
    assert_eq!(last_lines("a\nb\nc", 9), ["a", "b", "c"]);
    assert!(last_lines("a\nb", 0).is_empty());
}

#[test]
fn the_end_of_a_log_is_shown() {
    let tail = tail_log_file(Ok("one\ntwo\n".to_string()), "x.log", 1);
    assert_eq!(tail, Ok(vec!["two".to_string()]));
}

#[test]
fn an_empty_log_is_an_error() {
    let error = tail_log_file(Ok(String::new()), "x.log", 5).unwrap_err();
    assert_eq!(error.line(), "日志为空: x.log");
    let error = tail_log_file(Ok("one\n".to_string()), "x.log", 0).unwrap_err();
    assert_eq!(error.kind, ErrorKind::EmptyLog("x.log".to_string()));
}

#[test]
fn a_log_that_cannot_be_read_is_an_error() {
    let error = tail_log_file(Err(causes()), "x.log", 5).unwrap_err();
    assert_eq!(error.line(), "读取日志文件失败: x.log: why");
    let error = follow_log_file(Err(causes()), "x.log", 5).unwrap_err();
    assert_eq!(error.line(), "读取日志文件失败: x.log: why");
}

#[test]
fn following_a_log_shows_what_is_added() {
    let (selected, mut follower) =
        follow_log_file(Ok("一\n二\n".to_string()), "x.log", 1).expect("a log");
    assert_eq!(selected, ["二"]);
    assert!(follower.in_step("一\n二\n三"));
    assert_eq!(follower.next("一\n二\n三"), "三");
    assert_eq!(follower.next("一\n二\n三"), "");
    assert_eq!(follower.next("一\n二\n三\n四\n"), "\n四\n");
    assert_eq!(follower.seen, "一\n二\n三\n四\n".len());
}

#[test]
fn following_an_empty_log_begins_at_its_start() {
    let (selected, mut follower) = follow_log_file(Ok(String::new()), "x.log", 3).expect("a log");
    assert!(selected.is_empty());
    assert_eq!(follower.next("a\n"), "a\n");
}

#[test]
fn a_log_that_was_begun_anew_is_shown_from_its_start() {
    let mut follower = LogFollower { seen: 100 };
    assert!(follower.in_step("新的"));
    assert_eq!(follower.next("新的"), "新的");
    assert_eq!(follower.next(""), "");
    assert_eq!(follower.seen, 0);
}

#[test]
fn a_log_that_was_rewritten_may_be_out_of_step() {
    let follower = LogFollower { seen: 1 };
    assert!(!follower.in_step("中文"));
    assert!(follower.in_step("ab"));
}
