use youtube_comment_viewer::args::{parse, Args, CliArgs, Order};
use youtube_comment_viewer::constants::DEFAULT_YOUTUBE_API_KEY;
use youtube_comment_viewer::response::ViewerError;
use youtube_comment_viewer::url::{parse_video_id, video_id_from_parts, UrlParts};

#[test]
fn test_parse_video_id() {
    let url_and_id_pairs = [
        ("https://www.youtube.com/watch?v=9Gj47G2e1Jc", "9Gj47G2e1Jc"),
        ("http://www.youtube.com/watch?v=9Gj47G2e1Jc", "9Gj47G2e1Jc"),
        ("www.youtube.com/watch?v=9Gj47G2e1Jc", "9Gj47G2e1Jc"),
        ("https://youtube.com/watch?v=9Gj47G2e1Jc", "9Gj47G2e1Jc"),
        ("http://youtube.com/watch?v=9Gj47G2e1Jc", "9Gj47G2e1Jc"),
        ("youtube.com/watch?v=9Gj47G2e1Jc", "9Gj47G2e1Jc"),
        ("https://youtu.be/9Gj47G2e1Jc", "9Gj47G2e1Jc"),
        ("http://youtu.be/9Gj47G2e1Jc", "9Gj47G2e1Jc"),
        ("youtu.be/9Gj47G2e1Jc", "9Gj47G2e1Jc"),
        ("9Gj47G2e1Jc", "9Gj47G2e1Jc"),
    ];

    for (url, id) in url_and_id_pairs {
        assert_eq!(parse_video_id(url), id);
    }
}

#[test]
fn parse_video_id_is_idempotent_on_examples() {
    for input in [
        "9Gj47G2e1Jc",
        "https://www.youtube.com/watch?v=9Gj47G2e1Jc",
        "youtube.com/watch?v=9Gj47G2e1Jc",
        "https://youtu.be/9Gj47G2e1Jc",
        "youtu.be/9Gj47G2e1Jc",
    ] {
        let once = parse_video_id(input);
        assert_eq!(once, "9Gj47G2e1Jc");
        assert_eq!(parse_video_id(&once), once);
    }
}

#[test]
fn parse_video_id_takes_first_v_among_other_parameters() {
    assert_eq!(
        parse_video_id("https://www.youtube.com/watch?list=abc&v=XYZ123&v=other"),
        "XYZ123"
    );
}

#[test]
fn parse_video_id_keeps_input_for_other_hosts_and_paths() {
    assert_eq!(parse_video_id("https://example.com/watch?v=abc"), "https://example.com/watch?v=abc");
    assert_eq!(parse_video_id("https://www.youtube.com/embed?v=abc"), "https://www.youtube.com/embed?v=abc");
    assert_eq!(parse_video_id("https://www.youtube.com/watch"), "https://www.youtube.com/watch");
}

#[test]
fn video_id_from_given_parts() {
    let parts = UrlParts {
        host: Some("youtube.com".to_string()),
        path: "/watch".to_string(),
        query: vec![("t".to_string(), "10".to_string()), ("v".to_string(), "id1".to_string())],
    };
    assert_eq!(video_id_from_parts("anything", Some(parts)), "id1");
    let short = UrlParts { host: Some("youtu.be".to_string()), path: "/id2".to_string(), query: vec![] };
    assert_eq!(video_id_from_parts("anything", Some(short)), "id2");
    assert_eq!(video_id_from_parts("raw", None), "raw");
    let no_host = UrlParts { host: None, path: "/x".to_string(), query: vec![] };
    assert_eq!(video_id_from_parts("raw", Some(no_host)), "raw");
}

fn cli(flags: [bool; 5], api_key: Option<&str>) -> CliArgs {
    CliArgs {
        video_id_or_url: "https://youtu.be/9Gj47G2e1Jc".to_string(),
        default: flags[0],
        new: flags[1],
        old: flags[2],
        like: flags[3],
        peek: flags[4],
        api_key: api_key.map(|k| k.to_string()),
    }
}

#[test]
fn parse_accepts_at_most_one_order_flag() {
    let expected = [
        ([false, false, false, false, false], Order::Default),
        ([true, false, false, false, false], Order::Default),
        ([false, true, false, false, false], Order::New),
        ([false, false, true, false, false], Order::Old),
        ([false, false, false, true, false], Order::Like),
        ([false, false, false, false, true], Order::Peek),
    ];
    for (flags, order) in expected {
        let args: Args = parse(cli(flags, Some("k")), None).unwrap();
        assert_eq!(args.order, order);
        assert_eq!(args.video_id, "9Gj47G2e1Jc");
    }
}

#[test]
fn parse_rejects_two_or_more_order_flags() {
    for mask in 0u32..32 {
        let flags = [mask & 1 != 0, mask & 2 != 0, mask & 4 != 0, mask & 8 != 0, mask & 16 != 0];
        let result = parse(cli(flags, None), None);
        if mask.count_ones() >= 2 {
            assert!(matches!(result, Err(ViewerError::InvalidArgument)));
        } else {
            assert!(result.is_ok());
        }
    }
}

#[test]
fn parse_chooses_passed_then_environment_then_built_in_key() {
    let none = [false; 5];
    assert_eq!(parse(cli(none, Some("passed")), Some("env".to_string())).unwrap().api_key, "passed");
    assert_eq!(parse(cli(none, None), Some("env".to_string())).unwrap().api_key, "env");
    assert_eq!(parse(cli(none, None), None).unwrap().api_key, DEFAULT_YOUTUBE_API_KEY);
}
