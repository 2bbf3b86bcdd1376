use tradesnap::poll::{ClipboardPoll, PollStep};
use tradesnap::scraper::AuthCookie;
use tradesnap::service::{
    health_check, settle, CaptureMode, ChartLinks, ChartReply, ChartRequest, RequestAction,
    RequestEvent, WorkerOutcome,
};
use tradesnap::text;
use tradesnap::{Config, TradingViewScraper};

fn config() -> Config {
    Config {
        rust_log: "info".to_string(),
        session_id: "sid".to_string(),
        session_id_sign: "sig".to_string(),
        headless: true,
        window_width: 1920,
        window_height: 1080,
        chart_page_id: "LAYOUT1".to_string(),
        use_save_shortcut: false,
        request_timeout_seconds: 20,
    }
}

#[test]
fn test_white_space_matches_std() {
    for u in 0u32..=0x10FFFF {
        if let Some(c) = char::from_u32(u) {
            assert_eq!(text::is_white_space_char(c), c.is_whitespace(), "U+{:04X}", u);
        }
    }
}

#[test]
fn test_trim_matches_std() {
    let samples = [
        "",
        "   ",
        "abc",
        "  abc  ",
        "\t\n a b \r\n",
        "\u{2003}x\u{205f}",
        "\u{200b}x\u{200b}",
        "\u{85}\u{a0}y",
        "黑 风",
    ];
    for s in samples {
        assert_eq!(text::trim(s), s.trim(), "{:?}", s);
    }
}

#[test]
fn test_text_helpers() {
    assert_eq!(text::chars_of("aé😀"), vec!['a', 'é', '😀']);
    assert!(text::str_eq("abc", "abc"));
    assert!(!text::str_eq("abc", "abd"));
    assert!(!text::str_eq("abc", "ab"));
    assert!(text::starts_with("data:image/png", "data:image/"));
    assert!(!text::starts_with("data:", "data:image/"));
    assert!(text::starts_with("x", ""));
    assert!(text::contains("go to tradingview.com/x/abc", "tradingview.com/x/"));
    assert!(!text::contains("tradingview.com/y/abc", "tradingview.com/x/"));
    assert!(text::contains("abc", ""));
    assert!(!text::contains("ab", "abc"));
    let mut out = String::from("n=");
    text::push_decimal(&mut out, 0);
    assert_eq!(out, "n=0");
    let mut out = String::new();
    text::push_decimal(&mut out, u64::MAX);
    assert_eq!(out, "18446744073709551615");
}

#[test]
fn test_window_size_and_launch_args() {
    assert_eq!(
        TradingViewScraper::window_size_arg(1920, 1080),
        "--window-size=1920,1080"
    );
    assert_eq!(TradingViewScraper::window_size_arg(0, 7), "--window-size=0,7");
    let scraper = TradingViewScraper::with_config(config());
    let args = scraper.launch_args();
    assert_eq!(
        args,
        vec![
            "--no-sandbox",
            "--disable-dev-shm-usage",
            "--disable-gpu",
            "--enable-clipboard-read-write",
            "--disable-web-security",
            "--allow-running-insecure-content",
            "--disable-renderer-backgrounding",
            "--disable-background-timer-throttling",
            "--disable-backgrounding-occluded-windows",
            "--disable-hang-monitor",
            "--window-size=1920,1080",
        ]
    );
}

#[test]
fn test_auth_cookies() {
    let scraper = TradingViewScraper::with_config(config());
    assert!(scraper.has_session());
    let cookies: Vec<AuthCookie> = scraper.auth_cookies();
    assert_eq!(cookies.len(), 2);
    assert_eq!(cookies[0].name, "sessionid");
    assert_eq!(cookies[0].value, "sid");
    assert_eq!(cookies[1].name, "sessionid_sign");
    assert_eq!(cookies[1].value, "sig");
    for c in &cookies {
        assert_eq!(c.url, "https://in.tradingview.com");
        assert_eq!(c.domain, ".tradingview.com");
        assert_eq!(c.path, "/");
        assert!(c.secure && c.http_only);
    }
    let mut anonymous = config();
    anonymous.session_id = String::new();
    assert!(!TradingViewScraper::with_config(anonymous).has_session());
}

#[test]
fn test_chart_url() {
    let scraper = TradingViewScraper::with_config(config());
    assert_eq!(
        scraper.chart_url("BYBIT:BTCUSDT.P", "4h", true),
        "https://in.tradingview.com/chart/LAYOUT1/?symbol=BYBIT:BTCUSDT.P&interval=240&theme=light"
    );
    assert_eq!(
        scraper.chart_url("NASDAQ:AAPL", " 15m", false),
        "https://in.tradingview.com/chart/?symbol=NASDAQ:AAPL&interval=15&theme=light"
    );
}

#[test]
fn test_clipboard_decisions() {
    assert_eq!(
        TradingViewScraper::screenshot_link_from_clipboard("  https://www.tradingview.com/x/Ab12/ \n"),
        Some("https://www.tradingview.com/x/Ab12/".to_string())
    );
    assert_eq!(
        TradingViewScraper::screenshot_link_from_clipboard("https://www.tradingview.com/chart/"),
        None
    );
    assert_eq!(TradingViewScraper::screenshot_link_from_clipboard(""), None);
    assert_eq!(
        TradingViewScraper::image_data_url_from_clipboard("data:image/png;base64,iVBOR"),
        Some("data:image/png;base64,iVBOR".to_string())
    );
    assert_eq!(
        TradingViewScraper::image_data_url_from_clipboard(" data:image/png;base64,iVBOR"),
        None
    );
    assert_eq!(
        TradingViewScraper::image_data_url_from_clipboard("data:text/plain,hi"),
        None
    );
}

#[test]
fn test_snapshot_and_convert() {
    assert_eq!(
        TradingViewScraper::snapshot_image_url("XyZ"),
        Some("https://s3.tradingview.com/snapshots/x/XyZ.png".to_string())
    );
    assert_eq!(
        TradingViewScraper::snapshot_image_url("7a"),
        Some("https://s3.tradingview.com/snapshots/7/7a.png".to_string())
    );
    assert_eq!(TradingViewScraper::snapshot_image_url(""), None);
    assert_eq!(
        TradingViewScraper::convert_link_to_image_url("https://tradingview.com/x/QQ9"),
        Some("https://s3.tradingview.com/snapshots/q/QQ9.png".to_string())
    );
    assert_eq!(
        TradingViewScraper::convert_link_to_image_url(
            "see https://in.tradingview.com/x/Kd8e-rest and https://www.tradingview.com/x/Zz/"
        ),
        Some("https://s3.tradingview.com/snapshots/k/Kd8e.png".to_string())
    );
    assert_eq!(
        TradingViewScraper::convert_link_to_image_url("https://www.tradingview.com/chart/abc"),
        None
    );
    assert_eq!(
        TradingViewScraper::convert_link_to_image_url("http://www.tradingview.com/x/abc"),
        None
    );
}

#[test]
fn test_poll_finds_value() {
    let mut poll = ClipboardPoll::for_share_link();
    assert!(poll.wants_read());
    assert!(matches!(poll.record(None), PollStep::Retry { wait_ms: 1000 }));
    match poll.record(Some("link".to_string())) {
        PollStep::Found(v) => assert_eq!(v, "link"),
        _ => panic!("expected a value"),
    }
    assert!(!poll.wants_read());
}

#[test]
fn test_poll_gives_up() {
    let mut poll = ClipboardPoll::for_image_data();
    let mut reads = 0;
    let mut last = None;
    while poll.wants_read() {
        reads += 1;
        last = Some(poll.record(None));
    }
    assert_eq!(reads, 10);
    assert!(matches!(last, Some(PollStep::GiveUp { wait_ms: 800 })));

    let mut poll = ClipboardPoll::new(1, 5);
    assert!(matches!(poll.record(None), PollStep::GiveUp { wait_ms: 5 }));
    assert!(!poll.wants_read());
}

fn run(use_save_shortcut: bool, events: Vec<RequestEvent>) -> (Vec<&'static str>, RequestAction) {
    let (mut request, mut action) = ChartRequest::start(use_save_shortcut);
    let mut trace = Vec::new();
    for event in events {
        trace.push(match &action {
            RequestAction::CheckSession => "check",
            RequestAction::ReplaceSession => "replace",
            RequestAction::Capture(CaptureMode::ImageData) => "capture-image",
            RequestAction::Capture(CaptureMode::ShareLink) => "capture-link",
            RequestAction::Reply(_) => "reply",
        });
        assert!(!request.is_done());
        action = request.step(event);
    }
    (trace, action)
}

#[test]
fn test_request_image_mode_success() {
    let (trace, action) = run(
        true,
        vec![
            RequestEvent::SessionChecked { alive: true },
            RequestEvent::Captured(Ok("data:image/png;base64,AA".to_string())),
        ],
    );
    assert_eq!(trace, vec!["check", "capture-image"]);
    match action {
        RequestAction::Reply(Ok(links)) => {
            assert_eq!(links.image_url, "data:image/png;base64,AA");
            assert_eq!(links.png_url, "data:image/png;base64,AA");
        }
        _ => panic!("expected a reply"),
    }
}

#[test]
fn test_request_dead_session_then_link() {
    let (trace, action) = run(
        false,
        vec![
            RequestEvent::SessionChecked { alive: false },
            RequestEvent::SessionReplaced(Err("no chrome".to_string())),
            RequestEvent::Captured(Ok("https://www.tradingview.com/x/abCdEfGh/".to_string())),
        ],
    );
    assert_eq!(trace, vec!["check", "replace", "capture-link"]);
    match action {
        RequestAction::Reply(Ok(links)) => {
            assert_eq!(links.image_url, "https://www.tradingview.com/x/abCdEfGh/");
            assert_eq!(links.png_url, "https://s3.tradingview.com/snapshots/a/abCdEfGh.png");
        }
        _ => panic!("expected a reply"),
    }
}

#[test]
fn test_request_link_that_does_not_convert() {
    assert_eq!(
        ChartRequest::png_url(CaptureMode::ShareLink, "https://example.com/x/1"),
        "https://example.com/x/1"
    );
    assert_eq!(
        ChartRequest::png_url(CaptureMode::ImageData, "https://www.tradingview.com/x/ab/"),
        "https://www.tradingview.com/x/ab/"
    );
}

#[test]
fn test_request_failure_is_answered_at_once() {
    let (trace, action) = run(
        false,
        vec![
            RequestEvent::SessionChecked { alive: true },
            RequestEvent::Captured(Err("timeout".to_string())),
        ],
    );
    assert_eq!(trace, vec!["check", "capture-link"]);
    match action {
        RequestAction::Reply(Err(message)) => assert_eq!(message, "timeout"),
        _ => panic!("expected a failure reply"),
    }
}

#[test]
fn test_request_failure_after_replacement() {
    let (mut request, _) = ChartRequest::start(true);
    assert!(matches!(
        request.step(RequestEvent::SessionChecked { alive: false }),
        RequestAction::ReplaceSession
    ));
    assert!(matches!(
        request.step(RequestEvent::SessionReplaced(Ok(()))),
        RequestAction::Capture(CaptureMode::ImageData)
    ));
    match request.step(RequestEvent::Captured(Err("boom".to_string()))) {
        RequestAction::Reply(Err(message)) => assert_eq!(message, "boom"),
        _ => panic!("expected a failure reply"),
    }
    assert!(request.is_done());
}

#[test]
fn test_request_ignores_unrelated_event() {
    let (mut request, _) = ChartRequest::start(true);
    assert!(matches!(
        request.step(RequestEvent::Captured(Ok("x".to_string()))),
        RequestAction::CheckSession
    ));
    assert!(matches!(
        request.step(RequestEvent::SessionChecked { alive: true }),
        RequestAction::Capture(CaptureMode::ImageData)
    ));
}

#[test]
fn test_replies() {
    assert_eq!(health_check(), "{\"status\": \"ok\"}");
    let links = ChartLinks {
        image_url: "i".to_string(),
        png_url: "p".to_string(),
    };
    let s = settle("BYBIT:BTCUSDT.P", "4h", 20, WorkerOutcome::Finished(Ok(links)));
    assert!(!s.terminate_browser);
    match s.reply {
        ChartReply::Chart(resp) => {
            assert_eq!(resp.ticker, "BYBIT:BTCUSDT.P");
            assert_eq!(resp.interval, "4h");
            assert_eq!(resp.image_url, "i");
            assert_eq!(resp.png_url, "p");
        }
        _ => panic!("expected the chart"),
    }
    let s = settle("T", "1h", 20, WorkerOutcome::Finished(Err("oops".to_string())));
    assert!(!s.terminate_browser);
    match s.reply {
        ChartReply::Failure { status, body } => {
            assert_eq!(status, 500);
            assert_eq!(body, "Scraping failed: oops");
        }
        _ => panic!("expected a failure"),
    }
    let s = settle("T", "1h", 20, WorkerOutcome::Crashed("panicked".to_string()));
    assert!(!s.terminate_browser);
    match s.reply {
        ChartReply::Failure { status, body } => {
            assert_eq!(status, 500);
            assert_eq!(body, "Internal server join error: panicked");
        }
        _ => panic!("expected a failure"),
    }
}

#[test]
fn test_timeout_reply() {
    let s = settle("T", "1h", 20, WorkerOutcome::DeadlinePassed);
    assert!(s.terminate_browser);
    match s.reply {
        ChartReply::Failure { status, body } => {
            assert_eq!(status, 504);
            assert_eq!(body, "Scraping timed out after 20 seconds");
        }
        _ => panic!("expected a timeout"),
    }
}

#[test]
fn test_browser_housekeeping() {
    assert_eq!(
        TradingViewScraper::stale_profile_locks(),
        vec!["SingletonLock", "SingletonSocket", "SingletonCookie"]
    );
    assert_eq!(TradingViewScraper::idle_browser_timeout_secs(), 300);
}

#[test]
fn test_trim_is_idempotent() {
    for s in ["", " a ", "\u{3000}b c\t", "x", "\n\n"] {
        let once = text::trim(s);
        assert_eq!(text::trim(once), once);
    }
}
