//! The decisions of the TradingView chart scraper: how an interval is written
//! for TradingView, which chart page is opened, which session cookies and
//! browser flags are used, which clipboard contents are accepted, and how a
//! share link becomes a direct snapshot image link.

use vstd::prelude::*;

use crate::config::Config;
use crate::text::{
    all_ascii_digits, char_lowercase_seq, char_to_lowercase, chars_of, contains, contains_seq,
    decimal, is_ascii_digit, lemma_digits_trimmed, lemma_trimmed_idempotent,
    lemma_trimmed_unchanged, opt_view, push_decimal, starts_with, starts_with_seq, trim, trimmed,
};

verus! {

/// The interval that TradingView expects for a human-readable one: the input
/// is trimmed; a handful of hour, day, week and month spellings get their own
/// values; a run of digits followed by `m` or `M` (minutes) loses the suffix;
/// anything else is passed on trimmed.
pub open spec fn spec_map_interval(interval: Seq<char>) -> Seq<char> {
    let t = trimmed(interval);
    if t == seq!['1', 'h'] || t == seq!['1', 'H'] {
        seq!['6', '0']
    } else if t == seq!['2', 'h'] || t == seq!['2', 'H'] {
        seq!['1', '2', '0']
    } else if t == seq!['4', 'h'] || t == seq!['4', 'H'] {
        seq!['2', '4', '0']
    } else if t == seq!['1', 'd'] || t == seq!['1', 'D'] || t == seq!['d'] || t == seq!['D'] {
        seq!['D']
    } else if t == seq!['1', 'w'] || t == seq!['1', 'W'] || t == seq!['w'] || t == seq!['W'] {
        seq!['W']
    } else if t == seq!['1', 'M'] {
        seq!['M']
    } else if t == seq!['1', 'm'] {
        seq!['1']
    } else if t.len() > 0 && (t.last() == 'm' || t.last() == 'M') && all_ascii_digits(
        t.drop_last(),
    ) {
        t.drop_last()
    } else {
        t
    }
}

/// Whitespace around an interval does not change how it is mapped.
pub proof fn lemma_map_interval_ignores_surrounding_whitespace(interval: Seq<char>)
    ensures
        spec_map_interval(trimmed(interval)) == spec_map_interval(interval),
{
    lemma_trimmed_idempotent(interval);
}

/// A mapped interval never begins or ends with whitespace.
pub proof fn lemma_map_interval_is_trimmed(interval: Seq<char>)
    ensures
        trimmed(spec_map_interval(interval)) == spec_map_interval(interval),
{
    let t = trimmed(interval);
    let r = spec_map_interval(interval);
    if r == t {
        lemma_trimmed_idempotent(interval);
    } else if t.len() > 0 && (t.last() == 'm' || t.last() == 'M') && all_ascii_digits(
        t.drop_last(),
    ) && r == t.drop_last() {
        lemma_digits_trimmed(t.drop_last());
    } else {
        lemma_trimmed_unchanged(r);
    }
}

/// The named intervals, with any whitespace around them: `1h` is 60 minutes,
/// `2h` 120 and `4h` 240 (either case of `h`); `1D`, `1d`, `D`, `d` are a day,
/// `1W`, `1w`, `W`, `w` a week, `1M` a month, and `1m` one minute.
pub proof fn lemma_map_interval_named(interval: Seq<char>)
    ensures
        trimmed(interval) == "1h"@ || trimmed(interval) == "1H"@ ==> spec_map_interval(interval)
            == "60"@,
        trimmed(interval) == "2h"@ || trimmed(interval) == "2H"@ ==> spec_map_interval(interval)
            == "120"@,
        trimmed(interval) == "4h"@ || trimmed(interval) == "4H"@ ==> spec_map_interval(interval)
            == "240"@,
        trimmed(interval) == "1D"@ || trimmed(interval) == "1d"@ || trimmed(interval) == "D"@
            || trimmed(interval) == "d"@ ==> spec_map_interval(interval) == "D"@,
        trimmed(interval) == "1W"@ || trimmed(interval) == "1w"@ || trimmed(interval) == "W"@
            || trimmed(interval) == "w"@ ==> spec_map_interval(interval) == "W"@,
        trimmed(interval) == "1M"@ ==> spec_map_interval(interval) == "M"@,
        trimmed(interval) == "1m"@ ==> spec_map_interval(interval) == "1"@,
{
    reveal_strlit("1h");
    reveal_strlit("1H");
    reveal_strlit("2h");
    reveal_strlit("2H");
    reveal_strlit("4h");
    reveal_strlit("4H");
    reveal_strlit("1D");
    reveal_strlit("1d");
    reveal_strlit("D");
    reveal_strlit("d");
    reveal_strlit("1W");
    reveal_strlit("1w");
    reveal_strlit("W");
    reveal_strlit("w");
    reveal_strlit("1M");
    reveal_strlit("1m");
    reveal_strlit("M");
    reveal_strlit("1");
    reveal_strlit("60");
    reveal_strlit("120");
    reveal_strlit("240");
    let t = trimmed(interval);
    assert("1h"@ =~= seq!['1', 'h']);
    assert("1H"@ =~= seq!['1', 'H']);
    assert("2h"@ =~= seq!['2', 'h']);
    assert("2H"@ =~= seq!['2', 'H']);
    assert("4h"@ =~= seq!['4', 'h']);
    assert("4H"@ =~= seq!['4', 'H']);
    assert("1D"@ =~= seq!['1', 'D']);
    assert("1d"@ =~= seq!['1', 'd']);
    assert("D"@ =~= seq!['D']);
    assert("d"@ =~= seq!['d']);
    assert("1W"@ =~= seq!['1', 'W']);
    assert("1w"@ =~= seq!['1', 'w']);
    assert("W"@ =~= seq!['W']);
    assert("w"@ =~= seq!['w']);
    assert("1M"@ =~= seq!['1', 'M']);
    assert("1m"@ =~= seq!['1', 'm']);
    assert("M"@ =~= seq!['M']);
    assert("1"@ =~= seq!['1']);
    assert("60"@ =~= seq!['6', '0']);
    assert("120"@ =~= seq!['1', '2', '0']);
    assert("240"@ =~= seq!['2', '4', '0']);
    if t == seq!['1', 'W'] || t == seq!['1', 'w'] || t == seq!['W'] || t == seq!['w'] {
        assert(seq!['D'][0] == 'D' && seq!['d'][0] == 'd');
        assert(seq!['1', 'D'][1] == 'D' && seq!['1', 'd'][1] == 'd');
        assert(seq!['1', 'h'][1] == 'h' && seq!['1', 'H'][1] == 'H');
    }
}

/// A plain number of minutes is passed on as it is.
pub proof fn lemma_map_interval_keeps_numbers(digits: Seq<char>)
    requires
        all_ascii_digits(digits),
    ensures
        spec_map_interval(digits) == digits,
{
    lemma_digits_trimmed(digits);
    if digits.len() > 0 {
        assert(is_ascii_digit(digits.last()));
    }
}

/// A number of minutes written with the suffix `m` maps to the number itself.
pub proof fn lemma_map_interval_minutes(digits: Seq<char>)
    requires
        all_ascii_digits(digits),
    ensures
        spec_map_interval(digits.push('m')) == digits,
{
    let s = digits.push('m');
    assert(s.drop_last() =~= digits);
    if digits.len() > 0 {
        assert(is_ascii_digit(digits[0]));
        assert(s[0] == digits[0]);
    }
    lemma_trimmed_unchanged(s);
    if s == seq!['1', 'm'] {
        assert(digits =~= seq!['1']);
    }
}

/// A number of minutes written with the suffix `M` maps to the number itself,
/// except `1M`, which TradingView reads as one month and which maps to `M`.
pub proof fn lemma_map_interval_upper_minutes(digits: Seq<char>)
    requires
        all_ascii_digits(digits),
    ensures
        digits != seq!['1'] ==> spec_map_interval(digits.push('M')) == digits,
        spec_map_interval(seq!['1', 'M']) == seq!['M'],
{
    let s = digits.push('M');
    assert(s.drop_last() =~= digits);
    if digits.len() > 0 {
        assert(is_ascii_digit(digits[0]));
        assert(s[0] == digits[0]);
    }
    lemma_trimmed_unchanged(s);
    if s == seq!['1', 'M'] {
        assert(digits =~= seq!['1']);
    }
    lemma_trimmed_unchanged(seq!['1', 'M']);
}

/// The chart page that is opened for `ticker` at `interval`: the saved layout
/// `chart_page_id` where `use_layout` holds, else the plain chart, in the
/// light theme.
pub open spec fn spec_chart_url(
    chart_page_id: Seq<char>,
    ticker: Seq<char>,
    interval: Seq<char>,
    use_layout: bool,
) -> Seq<char> {
    if use_layout {
        "https://in.tradingview.com/chart/"@ + chart_page_id + "/?symbol="@ + ticker
            + "&interval="@ + spec_map_interval(interval) + "&theme=light"@
    } else {
        "https://in.tradingview.com/chart/?symbol="@ + ticker + "&interval="@ + spec_map_interval(
            interval,
        ) + "&theme=light"@
    }
}

/// The browser flag that sets the window size.
pub open spec fn spec_window_size_arg(width: u32, height: u32) -> Seq<char> {
    "--window-size="@ + decimal(width as nat) + ","@ + decimal(height as nat)
}

/// The flags that Chromium is launched with.
pub open spec fn spec_launch_args(width: u32, height: u32) -> Seq<Seq<char>> {
    seq![
        "--no-sandbox"@,
        "--disable-dev-shm-usage"@,
        "--disable-gpu"@,
        "--enable-clipboard-read-write"@,
        "--disable-web-security"@,
        "--allow-running-insecure-content"@,
        "--disable-renderer-backgrounding"@,
        "--disable-background-timer-throttling"@,
        "--disable-backgrounding-occluded-windows"@,
        "--disable-hang-monitor"@,
        spec_window_size_arg(width, height),
    ]
}

/// The text that the "Copy link" button leaves in the clipboard is accepted,
/// trimmed, where it holds a TradingView share link.
pub open spec fn spec_screenshot_link(clipboard_text: Seq<char>) -> Option<Seq<char>> {
    let t = trimmed(clipboard_text);
    if contains_seq(t, "tradingview.com/x/"@) {
        Some(t)
    } else {
        None
    }
}

/// A clipboard value is accepted as chart image where it is an image data URL.
pub open spec fn spec_image_data_url(value: Seq<char>) -> Option<Seq<char>> {
    if starts_with_seq(value, "data:image/"@) {
        Some(value)
    } else {
        None
    }
}

/// The direct S3 image of the snapshot `snapshot_id`: it is filed under the
/// lowercased first character of the id.
pub open spec fn spec_snapshot_url(snapshot_id: Seq<char>) -> Option<Seq<char>> {
    if snapshot_id.len() == 0 {
        None
    } else {
        Some(
            "https://s3.tradingview.com/snapshots/"@ + char_lowercase_seq(snapshot_id[0]) + "/"@
                + snapshot_id + ".png"@,
        )
    }
}

/// The pattern of a TradingView share link; its first group is the snapshot id.
pub const SHARE_LINK_PATTERN: &'static str = "https://(?:www\\.|in\\.)?tradingview\\.com/x/([a-zA-Z0-9]+)/?";

/// What `regex` gives for `pattern` on `haystack`: the text of capture group
/// `group` in the leftmost-first match, or nothing where the pattern does not
/// compile, does not match, or the group did not take part in the match.
pub uninterp spec fn regex_capture(pattern: Seq<char>, haystack: Seq<char>, group: nat) -> Option<
    Seq<char>,
>;

/// Compiles `pattern` with `regex::Regex::new` and returns the text of group
/// `group` of the first match that `Regex::captures` finds in `haystack`. The
/// result is named `regex_capture` of the arguments; nothing else is claimed.
#[verifier::external_body]
fn first_capture(pattern: &str, haystack: &str, group: usize) -> (r: Option<String>)
    ensures
        opt_view(r) == regex_capture(pattern@, haystack@, group as nat),
{
    let re = regex::Regex::new(pattern).ok()?;
    let caps = re.captures(haystack)?;
    caps.get(group).map(|m| m.as_str().to_string())
}

/// What `convert_link_to_image_url` gives for `input`.
pub open spec fn spec_convert_link(input: Seq<char>) -> Option<Seq<char>> {
    match regex_capture(SHARE_LINK_PATTERN@, input, 1) {
        Some(id) => spec_snapshot_url(id),
        None => None,
    }
}

/// A converted link is always a PNG under the S3 snapshot directory, filed
/// under a folder named after the id's first character and named after the id.
pub proof fn lemma_converted_link_shape(input: Seq<char>)
    ensures
        spec_convert_link(input) matches Some(url) ==> {
            let id = regex_capture(SHARE_LINK_PATTERN@, input, 1)->0;
            &&& starts_with_seq(url, "https://s3.tradingview.com/snapshots/"@)
            &&& url.subrange(url.len() - id.len() - 4, url.len() as int) == id + ".png"@
        },
{
    if let Some(url) = spec_convert_link(input) {
        let id = regex_capture(SHARE_LINK_PATTERN@, input, 1)->0;
        let prefix = "https://s3.tradingview.com/snapshots/"@;
        let folder = char_lowercase_seq(id[0]) + "/"@;
        reveal_strlit(".png");
        assert(url == prefix + folder + id + ".png"@);
        assert(url.subrange(0, prefix.len() as int) =~= prefix);
        assert(url.subrange(url.len() - id.len() - 4, url.len() as int) =~= id + ".png"@);
    }
}

/// Clipboard text is accepted as a share link exactly when, trimmed, it holds
/// `tradingview.com/x/` (on any host, `www.`, `in.` or none); the accepted
/// link is the trimmed text, and any other text is refused.
pub proof fn lemma_screenshot_link_acceptance(clipboard_text: Seq<char>)
    ensures
        contains_seq(trimmed(clipboard_text), "tradingview.com/x/"@) ==> spec_screenshot_link(
            clipboard_text,
        ) == Some(trimmed(clipboard_text)),
        !contains_seq(trimmed(clipboard_text), "tradingview.com/x/"@) ==> spec_screenshot_link(
            clipboard_text,
        ) is None,
{
}

/// Every share link `https://<host>tradingview.com/x/<id>/` is accepted as it
/// is, whatever the host prefix and the id.
pub proof fn lemma_share_links_accepted(host: Seq<char>, id: Seq<char>)
    requires
        trimmed("https://"@ + host + "tradingview.com/x/"@ + id) == "https://"@ + host
            + "tradingview.com/x/"@ + id,
    ensures
        spec_screenshot_link("https://"@ + host + "tradingview.com/x/"@ + id) == Some(
            "https://"@ + host + "tradingview.com/x/"@ + id,
        ),
{
    let link = "https://"@ + host + "tradingview.com/x/"@ + id;
    let needle = "tradingview.com/x/"@;
    let at = ("https://"@ + host).len() as int;
    assert(link.subrange(at, at + needle.len()) =~= needle);
    assert(contains_seq(link, needle));
}

/// A clipboard value is accepted as the chart image exactly when it begins
/// with `data:image/`, whatever its length, and then it is kept whole.
pub proof fn lemma_image_data_url_acceptance(value: Seq<char>)
    ensures
        value.len() >= 11 && value.subrange(0, 11) == "data:image/"@ ==> spec_image_data_url(value)
            == Some(value),
        !(value.len() >= 11 && value.subrange(0, 11) == "data:image/"@) ==> spec_image_data_url(
            value,
        ) is None,
{
    reveal_strlit("data:image/");
}

/// For an id whose first character is ASCII, the direct image lies in the
/// folder named by that character in lowercase (an uppercase letter moves to
/// its lowercase; any other character stays) and is named after the whole id.
pub proof fn lemma_snapshot_url_folder(snapshot_id: Seq<char>)
    requires
        snapshot_id.len() > 0,
        snapshot_id[0] <= '\x7f',
    ensures
        spec_snapshot_url(snapshot_id) == Some(
            "https://s3.tradingview.com/snapshots/"@ + seq![
                if 'A' <= snapshot_id[0] <= 'Z' {
                    ((snapshot_id[0] as int) + 32) as char
                } else {
                    snapshot_id[0]
                },
            ] + "/"@ + snapshot_id + ".png"@,
        ),
        'A' <= snapshot_id[0] <= 'Z' ==> spec_snapshot_url(snapshot_id) != Some(
            "https://s3.tradingview.com/snapshots/"@ + seq![snapshot_id[0]] + "/"@ + snapshot_id
                + ".png"@,
        ),
{
    let prefix = "https://s3.tradingview.com/snapshots/"@;
    let c = snapshot_id[0];
    if 'A' <= c <= 'Z' {
        let lowered = ((c as int) + 32) as char;
        let right = prefix + seq![lowered] + "/"@ + snapshot_id + ".png"@;
        let wrong = prefix + seq![c] + "/"@ + snapshot_id + ".png"@;
        assert(right[prefix.len() as int] == lowered);
        assert(wrong[prefix.len() as int] == c);
        assert(lowered != c);
    }
}

/// The chart address holds the ticker verbatim as the symbol and the mapped
/// interval, in the light theme; with the saved layout the layout id comes
/// first in the path.
pub proof fn lemma_chart_url_text(
    chart_page_id: Seq<char>,
    ticker: Seq<char>,
    interval: Seq<char>,
)
    ensures
        spec_chart_url(chart_page_id, ticker, interval, false)
            == "https://in.tradingview.com/chart/?symbol="@ + ticker + "&interval="@
            + spec_map_interval(interval) + "&theme=light"@,
        spec_chart_url(chart_page_id, ticker, interval, true)
            == "https://in.tradingview.com/chart/"@ + chart_page_id + "/?symbol="@ + ticker
            + "&interval="@ + spec_map_interval(interval) + "&theme=light"@,
        ({
            let url = spec_chart_url(chart_page_id, ticker, interval, false);
            let start = "https://in.tradingview.com/chart/?symbol="@.len() as int;
            url.subrange(start, start + ticker.len()) == ticker
        }),
{
    let url = spec_chart_url(chart_page_id, ticker, interval, false);
    let prefix = "https://in.tradingview.com/chart/?symbol="@;
    let start = prefix.len() as int;
    assert(url.subrange(start, start + ticker.len()) =~= ticker);
}

/// A session cookie that is set in the browser before any chart is opened.
pub struct AuthCookie {
    pub name: String,
    pub value: String,
    pub url: String,
    pub domain: String,
    pub path: String,
    pub secure: bool,
    pub http_only: bool,
}

/// The cookie `name` = `value` as the TradingView session expects it: bound
/// to `https://in.tradingview.com`, valid for every `.tradingview.com` host
/// and path, secure and HTTP-only.
pub open spec fn is_session_cookie(c: AuthCookie, name: Seq<char>, value: Seq<char>) -> bool {
    &&& c.name@ == name
    &&& c.value@ == value
    &&& c.url@ == "https://in.tradingview.com"@
    &&& c.domain@ == ".tradingview.com"@
    &&& c.path@ == "/"@
    &&& c.secure
    &&& c.http_only
}

/// The scraper's settings. The browser session that it drives is held by the
/// program around the library.
pub struct TradingViewScraper {
    pub config: Config,
}

fn string_of(s: &str) -> (r: String)
    ensures
        r@ == s@,
{
    s.to_owned()
}

impl TradingViewScraper {

    /// A scraper with the given settings.
    pub fn with_config(config: Config) -> (r: Self)
        ensures
            r.config == config,
    {
        TradingViewScraper { config }
    }

    /// The lock files that a Chromium which did not shut down cleanly leaves
    /// in its profile directory; they are removed before each launch, so that
    /// a restarted service does not fail to start the browser.
    pub fn stale_profile_locks() -> (r: Vec<&'static str>)
        ensures
            r@.map_values(|f: &str| f@) == seq![
                "SingletonLock"@,
                "SingletonSocket"@,
                "SingletonCookie"@,
            ],
    {
        let mut r: Vec<&'static str> = Vec::new();
        r.push("SingletonLock");
        r.push("SingletonSocket");
        r.push("SingletonCookie");
        assert(r@.map_values(|f: &str| f@) =~= seq![
            "SingletonLock"@,
            "SingletonSocket"@,
            "SingletonCookie"@,
        ]);
        r
    }

    /// How long the connection to the browser may stay idle before it is
    /// dropped: five minutes, so that a dead session does not hang for long.
    pub fn idle_browser_timeout_secs() -> (r: u64)
        ensures
            r == 300,
    {
        300
    }

    /// Whether a TradingView session is configured. Then the session cookies
    /// are set when the browser starts and the saved chart layout is opened.
    pub fn has_session(&self) -> (r: bool)
        ensures
            r == (self.config.session_id@.len() > 0),
    {
        !self.config.session_id.as_str().is_empty()
    }

    /// The two session cookies, `sessionid` and `sessionid_sign`.
    pub fn auth_cookies(&self) -> (r: Vec<AuthCookie>)
        ensures
            r@.len() == 2,
            is_session_cookie(r@[0], "sessionid"@, self.config.session_id@),
            is_session_cookie(r@[1], "sessionid_sign"@, self.config.session_id_sign@),
    {
        let mut r: Vec<AuthCookie> = Vec::new();
        r.push(
            AuthCookie {
                name: string_of("sessionid"),
                value: self.config.session_id.clone(),
                url: string_of("https://in.tradingview.com"),
                domain: string_of(".tradingview.com"),
                path: string_of("/"),
                secure: true,
                http_only: true,
            },
        );
        r.push(
            AuthCookie {
                name: string_of("sessionid_sign"),
                value: self.config.session_id_sign.clone(),
                url: string_of("https://in.tradingview.com"),
                domain: string_of(".tradingview.com"),
                path: string_of("/"),
                secure: true,
                http_only: true,
            },
        );
        r
    }

    /// The browser flag `--window-size=W,H`.
    pub fn window_size_arg(width: u32, height: u32) -> (r: String)
        ensures
            r@ == spec_window_size_arg(width, height),
    {
        let mut r = string_of("--window-size=");
        push_decimal(&mut r, width as u64);
        r.append(",");
        push_decimal(&mut r, height as u64);
        r
    }

    /// The flags that Chromium is launched with: no sandbox, no shared-memory
    /// use, no GPU, clipboard access, relaxed web security, no throttling of
    /// background pages, no hang monitor, and the configured window size.
    pub fn launch_args(&self) -> (r: Vec<String>)
        ensures
            r@.map_values(|a: String| a@) == spec_launch_args(
                self.config.window_width,
                self.config.window_height,
            ),
    {
        let mut r: Vec<String> = Vec::new();
        r.push(string_of("--no-sandbox"));
        r.push(string_of("--disable-dev-shm-usage"));
        r.push(string_of("--disable-gpu"));
        r.push(string_of("--enable-clipboard-read-write"));
        r.push(string_of("--disable-web-security"));
        r.push(string_of("--allow-running-insecure-content"));
        r.push(string_of("--disable-renderer-backgrounding"));
        r.push(string_of("--disable-background-timer-throttling"));
        r.push(string_of("--disable-backgrounding-occluded-windows"));
        r.push(string_of("--disable-hang-monitor"));
        r.push(Self::window_size_arg(self.config.window_width, self.config.window_height));
        assert(r@.map_values(|a: String| a@) =~= spec_launch_args(
            self.config.window_width,
            self.config.window_height,
        ));
        r
    }

    /// The address of the chart for `ticker` at `interval`; with `use_layout`
    /// the configured saved layout is opened.
    pub fn chart_url(&self, ticker: &str, interval: &str, use_layout: bool) -> (r: String)
        ensures
            r@ == spec_chart_url(self.config.chart_page_id@, ticker@, interval@, use_layout),
            !use_layout ==> r@ == "https://in.tradingview.com/chart/?symbol="@ + ticker@
                + "&interval="@ + spec_map_interval(interval@) + "&theme=light"@,
            use_layout ==> r@ == "https://in.tradingview.com/chart/"@ + self.config.chart_page_id@
                + "/?symbol="@ + ticker@ + "&interval="@ + spec_map_interval(interval@)
                + "&theme=light"@,
    {
        let mapped = Self::map_interval(interval);
        let mut r = if use_layout {
            let mut u = string_of("https://in.tradingview.com/chart/");
            u.append(self.config.chart_page_id.as_str());
            u.append("/?symbol=");
            u
        } else {
            string_of("https://in.tradingview.com/chart/?symbol=")
        };
        r.append(ticker);
        r.append("&interval=");
        r.append(mapped.as_str());
        r.append("&theme=light");
        r
    }

    /// The share link in the text that the clipboard holds after "Copy link":
    /// the text trimmed, where it holds `tradingview.com/x/`.
    pub fn screenshot_link_from_clipboard(clipboard_text: &str) -> (r: Option<String>)
        ensures
            opt_view(r) == spec_screenshot_link(clipboard_text@),
            contains_seq(trimmed(clipboard_text@), "tradingview.com/x/"@) ==> opt_view(r) == Some(
                trimmed(clipboard_text@),
            ),
            !contains_seq(trimmed(clipboard_text@), "tradingview.com/x/"@) ==> r is None,
    {
        let t = trim(clipboard_text);
        if contains(t, "tradingview.com/x/") {
            Some(string_of(t))
        } else {
            None
        }
    }

    /// The chart image in a value read from the clipboard: the value where it
    /// is a `data:image/` URL.
    pub fn image_data_url_from_clipboard(value: &str) -> (r: Option<String>)
        ensures
            opt_view(r) == spec_image_data_url(value@),
            value@.len() >= 11 && value@.subrange(0, 11) == "data:image/"@ ==> opt_view(r) == Some(
                value@,
            ),
            !(value@.len() >= 11 && value@.subrange(0, 11) == "data:image/"@) ==> r is None,
    {
        proof {
            reveal_strlit("data:image/");
        }
        if starts_with(value, "data:image/") {
            Some(string_of(value))
        } else {
            None
        }
    }

    /// The direct image link of the snapshot with id `snapshot_id`, none for
    /// an empty id.
    pub fn snapshot_image_url(snapshot_id: &str) -> (r: Option<String>)
        ensures
            opt_view(r) == spec_snapshot_url(snapshot_id@),
            snapshot_id@.len() == 0 ==> r is None,
            snapshot_id@.len() > 0 && snapshot_id@[0] <= '\x7f' ==> opt_view(r) == Some(
                "https://s3.tradingview.com/snapshots/"@ + seq![
                    if 'A' <= snapshot_id@[0] <= 'Z' {
                        ((snapshot_id@[0] as int) + 32) as char
                    } else {
                        snapshot_id@[0]
                    },
                ] + "/"@ + snapshot_id@ + ".png"@,
            ),
    {
        if snapshot_id.is_empty() {
            return None;
        }
        let first = char_to_lowercase(snapshot_id.get_char(0));
        let mut r = string_of("https://s3.tradingview.com/snapshots/");
        r.append(first.as_str());
        r.append("/");
        r.append(snapshot_id);
        r.append(".png");
        Some(r)
    }

    /// Converts a raw TradingView share link (e.g. `/x/`) to a direct S3
    /// snapshot image link.
    pub fn convert_link_to_image_url(input_string: &str) -> (r: Option<String>)
        ensures
            opt_view(r) == spec_convert_link(input_string@),
    {
        match first_capture(SHARE_LINK_PATTERN, input_string, 1) {
            Some(id) => Self::snapshot_image_url(id.as_str()),
            None => None,
        }
    }
    /// Maps human-readable intervals (e.g. "1h", "4h", "1D") to the formats
    /// that TradingView expects ("60", "240", "D").
    pub fn map_interval(interval: &str) -> (r: String)
        ensures
            r@ == spec_map_interval(interval@),
    {
        let t = trim(interval);
        let cs = chars_of(t);
        let n = cs.len();
        let ghost tv = trimmed(interval@);
        assert(cs@ == tv);
        if n == 1 {
            let c = cs[0];
            assert(tv =~= seq![c]);
            if c == 'd' || c == 'D' {
                proof {
                    reveal_strlit("D");
                }
                return string_of("D");
            }
            if c == 'w' || c == 'W' {
                proof {
                    reveal_strlit("W");
                }
                return string_of("W");
            }
        }
        if n == 2 {
            let c0 = cs[0];
            let c1 = cs[1];
            assert(tv =~= seq![c0, c1]);
            if c0 == '1' && (c1 == 'h' || c1 == 'H') {
                proof {
                    reveal_strlit("60");
                }
                return string_of("60");
            }
            if c0 == '2' && (c1 == 'h' || c1 == 'H') {
                proof {
                    reveal_strlit("120");
                }
                return string_of("120");
            }
            if c0 == '4' && (c1 == 'h' || c1 == 'H') {
                proof {
                    reveal_strlit("240");
                }
                return string_of("240");
            }
            if c0 == '1' && (c1 == 'd' || c1 == 'D') {
                proof {
                    reveal_strlit("D");
                }
                return string_of("D");
            }
            if c0 == '1' && (c1 == 'w' || c1 == 'W') {
                proof {
                    reveal_strlit("W");
                }
                return string_of("W");
            }
            if c0 == '1' && c1 == 'M' {
                proof {
                    reveal_strlit("M");
                }
                return string_of("M");
            }
            if c0 == '1' && c1 == 'm' {
                proof {
                    reveal_strlit("1");
                }
                return string_of("1");
            }
        }
        if n > 0 && (cs[n - 1] == 'm' || cs[n - 1] == 'M') {
            let mut i: usize = 0;
            while i < n - 1 && '0' <= cs[i] && cs[i] <= '9'
                invariant
                    0 < n,
                    n == cs@.len(),
                    i <= n - 1,
                    forall|k: int| 0 <= k < i ==> #[trigger] is_ascii_digit(cs@[k]),
                decreases n - 1 - i,
            {
                i += 1;
            }
            if i == n - 1 {
                assert(all_ascii_digits(tv.drop_last()));
                return string_of(t.substring_char(0, n - 1));
            }
            assert(!is_ascii_digit(tv.drop_last()[i as int]));
        }
        string_of(t)
    }
}

} // verus!
