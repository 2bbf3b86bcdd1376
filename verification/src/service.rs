//! How one `GET /chart` request is served: check that the browser session is
//! alive (replacing it if not), capture the chart once, and answer with the
//! links or the error. A failed capture is answered at once, with no new
//! session and no second capture. A request that runs past the configured
//! timeout is answered with a gateway timeout, and the stuck browser is ended.
//!
//! The caller performs each action (browser checks, launches, captures, the
//! clock) and reports what came of it; this module decides the next action
//! and the reply.

use vstd::prelude::*;

use crate::scraper::{spec_convert_link, TradingViewScraper};
use crate::text::{decimal, push_decimal};

verus! {

/// How the chart is captured.
#[derive(Debug, Clone, Copy, PartialEq, Eq, Structural)]
pub enum CaptureMode {
    /// The save shortcut copies the chart image; the reply carries it as a
    /// base64 data URL.
    ImageData,
    /// "Copy link" copies a share link; the reply also carries the direct
    /// image link derived from it.
    ShareLink,
}

/// The links that a successful capture gives.
pub struct ChartLinks {
    pub image_url: String,
    pub png_url: String,
}

/// What the caller does next.
pub enum RequestAction {
    /// Check whether the browser session still responds.
    CheckSession,
    /// Launch a new browser session with the same configuration.
    ReplaceSession,
    /// Capture the chart in this mode.
    Capture(CaptureMode),
    /// The request is served: the links, or the error message.
    Reply(Result<ChartLinks, String>),
}

/// What came of the last action.
pub enum RequestEvent {
    SessionChecked { alive: bool },
    /// The new session, or the launch error's message.
    SessionReplaced(Result<(), String>),
    /// The captured link, or the capture error's message.
    Captured(Result<String, String>),
}

/// Where a request stands.
pub enum RequestStage {
    CheckingSession,
    ReplacingDeadSession,
    Capturing,
    Done,
}

/// One request in progress.
pub struct ChartRequest {
    pub mode: CaptureMode,
    pub stage: RequestStage,
}

pub enum ActionView {
    CheckSession,
    ReplaceSession,
    Capture(CaptureMode),
    Reply(Result<(Seq<char>, Seq<char>), Seq<char>>),
}

pub enum EventView {
    SessionChecked { alive: bool },
    SessionReplaced(Result<(), Seq<char>>),
    Captured(Result<Seq<char>, Seq<char>>),
}

pub enum StageView {
    CheckingSession,
    ReplacingDeadSession,
    Capturing,
    Done,
}

impl View for RequestAction {
    type V = ActionView;

    open spec fn view(&self) -> ActionView {
        match self {
            RequestAction::CheckSession => ActionView::CheckSession,
            RequestAction::ReplaceSession => ActionView::ReplaceSession,
            RequestAction::Capture(m) => ActionView::Capture(*m),
            RequestAction::Reply(Ok(links)) => ActionView::Reply(
                Ok((links.image_url@, links.png_url@)),
            ),
            RequestAction::Reply(Err(e)) => ActionView::Reply(Err(e@)),
        }
    }
}

impl View for RequestEvent {
    type V = EventView;

    open spec fn view(&self) -> EventView {
        match self {
            RequestEvent::SessionChecked { alive } => EventView::SessionChecked { alive: *alive },
            RequestEvent::SessionReplaced(Ok(())) => EventView::SessionReplaced(Ok(())),
            RequestEvent::SessionReplaced(Err(e)) => EventView::SessionReplaced(Err(e@)),
            RequestEvent::Captured(Ok(url)) => EventView::Captured(Ok(url@)),
            RequestEvent::Captured(Err(e)) => EventView::Captured(Err(e@)),
        }
    }
}

impl View for RequestStage {
    type V = StageView;

    open spec fn view(&self) -> StageView {
        match self {
            RequestStage::CheckingSession => StageView::CheckingSession,
            RequestStage::ReplacingDeadSession => StageView::ReplacingDeadSession,
            RequestStage::Capturing => StageView::Capturing,
            RequestStage::Done => StageView::Done,
        }
    }
}

/// The mode that the configuration selects: the save shortcut where
/// `use_save_shortcut` is set, else the share link.
pub open spec fn mode_for(use_save_shortcut: bool) -> CaptureMode {
    if use_save_shortcut {
        CaptureMode::ImageData
    } else {
        CaptureMode::ShareLink
    }
}

/// The image link of the reply: the captured data URL itself, or for a share
/// link its direct image link, falling back to the share link where it does
/// not convert.
pub open spec fn spec_png_url(mode: CaptureMode, image_url: Seq<char>) -> Seq<char> {
    match mode {
        CaptureMode::ImageData => image_url,
        CaptureMode::ShareLink => match spec_convert_link(image_url) {
            Some(png) => png,
            None => image_url,
        },
    }
}

/// The action that a stage waits to see the outcome of.
pub open spec fn pending(mode: CaptureMode, stage: StageView) -> ActionView {
    match stage {
        StageView::CheckingSession => ActionView::CheckSession,
        StageView::ReplacingDeadSession => ActionView::ReplaceSession,
        StageView::Capturing => ActionView::Capture(mode),
        StageView::Done => ActionView::CheckSession,
    }
}

/// Whether `event` reports the outcome of the action that `stage` waits for.
pub open spec fn expects(stage: StageView, event: EventView) -> bool {
    match (stage, event) {
        (StageView::CheckingSession, EventView::SessionChecked { .. }) => true,
        (StageView::ReplacingDeadSession, EventView::SessionReplaced(_)) => true,
        (StageView::Capturing, EventView::Captured(_)) => true,
        _ => false,
    }
}

/// The next stage and action after `event`. A dead session is replaced
/// before the capture, and a failure to replace it is ignored; the capture's
/// outcome, link or error, is the reply. An event that does not answer the
/// pending action changes nothing.
pub open spec fn next(mode: CaptureMode, stage: StageView, event: EventView) -> (
    StageView,
    ActionView,
) {
    match (stage, event) {
        (StageView::CheckingSession, EventView::SessionChecked { alive }) => if alive {
            (StageView::Capturing, ActionView::Capture(mode))
        } else {
            (StageView::ReplacingDeadSession, ActionView::ReplaceSession)
        },
        (StageView::ReplacingDeadSession, EventView::SessionReplaced(_)) => (
            StageView::Capturing,
            ActionView::Capture(mode),
        ),
        (StageView::Capturing, EventView::Captured(Ok(url))) => (
            StageView::Done,
            ActionView::Reply(Ok((url, spec_png_url(mode, url)))),
        ),
        (StageView::Capturing, EventView::Captured(Err(e))) => (
            StageView::Done,
            ActionView::Reply(Err(e)),
        ),
        _ => (stage, pending(mode, stage)),
    }
}

/// How far a stage is from the reply.
pub open spec fn rank(stage: StageView) -> nat {
    match stage {
        StageView::CheckingSession => 3,
        StageView::ReplacingDeadSession => 2,
        StageView::Capturing => 1,
        StageView::Done => 0,
    }
}

/// How many more captures a request can still ask for from this stage.
pub open spec fn capture_budget(stage: StageView) -> nat {
    match stage {
        StageView::CheckingSession => 1,
        StageView::ReplacingDeadSession => 1,
        StageView::Capturing => 0,
        StageView::Done => 0,
    }
}

/// How many more session replacements a request can still ask for.
pub open spec fn replace_budget(stage: StageView) -> nat {
    match stage {
        StageView::CheckingSession => 1,
        _ => 0,
    }
}

/// Every answered action brings a request closer to its reply, and a reply is
/// given exactly when the request is done; an event that answers nothing
/// changes nothing. So a request is answered after at most three outside steps.
pub proof fn lemma_request_progress(mode: CaptureMode, stage: StageView, event: EventView)
    requires
        !(stage is Done),
    ensures
        expects(stage, event) ==> rank(next(mode, stage, event).0) < rank(stage),
        !expects(stage, event) ==> next(mode, stage, event) == (stage, pending(mode, stage)),
        (next(mode, stage, event).1 is Reply) <==> (next(mode, stage, event).0 is Done),
{
}

/// A request captures at most once, and replaces the browser session at most
/// once, and only before the capture: each capture and each replacement uses
/// up a budget that starts at one and never grows.
pub proof fn lemma_request_budgets(mode: CaptureMode, stage: StageView, event: EventView)
    requires
        !(stage is Done),
    ensures
        capture_budget(StageView::CheckingSession) == 1,
        replace_budget(StageView::CheckingSession) == 1,
        capture_budget(next(mode, stage, event).0) <= capture_budget(stage),
        replace_budget(next(mode, stage, event).0) <= replace_budget(stage),
        expects(stage, event) && next(mode, stage, event).1 is Capture ==> capture_budget(
            next(mode, stage, event).0,
        ) + 1 == capture_budget(stage),
        expects(stage, event) && next(mode, stage, event).1 is ReplaceSession ==> replace_budget(
            next(mode, stage, event).0,
        ) + 1 == replace_budget(stage),
{
}

/// A live browser session is used as it is; a dead one is replaced first,
/// and the capture follows the replacement whether or not the launch worked.
/// A successful capture is answered with the captured link.
pub proof fn lemma_session_handling(
    mode: CaptureMode,
    launch: Result<(), Seq<char>>,
    link: Seq<char>,
)
    ensures
        next(mode, StageView::CheckingSession, EventView::SessionChecked { alive: true }) == (
            StageView::Capturing,
            ActionView::Capture(mode),
        ),
        next(mode, StageView::CheckingSession, EventView::SessionChecked { alive: false }) == (
            StageView::ReplacingDeadSession,
            ActionView::ReplaceSession,
        ),
        next(mode, StageView::ReplacingDeadSession, EventView::SessionReplaced(launch)) == (
            StageView::Capturing,
            ActionView::Capture(mode),
        ),
        next(mode, StageView::Capturing, EventView::Captured(Ok(link))).1 matches ActionView::Reply(
            Ok(links),
        ) && links.0 == link,
{
}

/// A failed capture is answered at once with its error: no new session is
/// launched and no second capture is made.
pub proof fn lemma_failed_capture_is_answered(mode: CaptureMode, message: Seq<char>)
    ensures
        next(mode, StageView::Capturing, EventView::Captured(Err(message))) == (
            StageView::Done,
            ActionView::Reply(Err(message)),
        ),
{
}

/// In image mode the reply's image link is the captured data URL itself.
pub proof fn lemma_image_mode_reply(stage: StageView, event: EventView)
    ensures
        next(CaptureMode::ImageData, stage, event).1 matches ActionView::Reply(Ok(links))
            ==> links.0 == links.1,
{
}

/// In share-link mode the reply's image link is the direct image of the
/// captured share link, or the share link itself where it does not convert.
pub proof fn lemma_share_link_reply(stage: StageView, event: EventView)
    ensures
        next(CaptureMode::ShareLink, stage, event).1 matches ActionView::Reply(Ok(links)) ==> {
            ||| spec_convert_link(links.0) == Some(links.1)
            ||| spec_convert_link(links.0) is None && links.1 == links.0
        },
{
}

/// The body of the health check.
pub open spec fn spec_health_body() -> Seq<char> {
    "{\"status\": \"ok\"}"@
}

/// What a served request answers.
pub struct ChartResponse {
    pub ticker: String,
    pub interval: String,
    pub image_url: String,
    pub png_url: String,
}

/// The answer to a request: the chart links, or an HTTP error with its body.
pub enum ChartReply {
    Chart(ChartResponse),
    Failure { status: u16, body: String },
}

/// How the work on a request ended, as the HTTP handler sees it.
pub enum WorkerOutcome {
    /// The request machine replied: the links, or the error message.
    Finished(Result<ChartLinks, String>),
    /// The worker that ran the request failed (it panicked or was cancelled).
    Crashed(String),
    /// The configured request timeout passed before the worker finished.
    DeadlinePassed,
}

/// The answer to a request, and whether the browser must be ended because a
/// capture is stuck in it.
pub struct Settlement {
    pub reply: ChartReply,
    pub terminate_browser: bool,
}

/// The body of the answer when the capture failed with `message`.
pub open spec fn spec_scrape_failure(message: Seq<char>) -> Seq<char> {
    "Scraping failed: "@ + message
}

/// The body of the answer when the worker that served the request failed.
pub open spec fn spec_join_failure(message: Seq<char>) -> Seq<char> {
    "Internal server join error: "@ + message
}

/// The body of the answer when the request timed out.
pub open spec fn spec_timeout_failure(timeout_seconds: u64) -> Seq<char> {
    "Scraping timed out after "@ + decimal(timeout_seconds as nat) + " seconds"@
}

/// What `settle` answers for `outcome`: the links with the request's
/// parameters (200); the capture's error (500); the worker's failure (500); or,
/// past the timeout, a gateway timeout (504) together with ending the browser.
pub open spec fn settles_as(
    ticker: Seq<char>,
    interval: Seq<char>,
    timeout_seconds: u64,
    outcome: WorkerOutcome,
    s: Settlement,
) -> bool {
    match outcome {
        WorkerOutcome::Finished(Ok(links)) => {
            &&& s.reply matches ChartReply::Chart(resp)
            &&& resp.ticker@ == ticker
            &&& resp.interval@ == interval
            &&& resp.image_url == links.image_url
            &&& resp.png_url == links.png_url
            &&& !s.terminate_browser
        },
        WorkerOutcome::Finished(Err(message)) => {
            &&& s.reply matches ChartReply::Failure { status, body }
            &&& status == 500
            &&& body@ == spec_scrape_failure(message@)
            &&& !s.terminate_browser
        },
        WorkerOutcome::Crashed(message) => {
            &&& s.reply matches ChartReply::Failure { status, body }
            &&& status == 500
            &&& body@ == spec_join_failure(message@)
            &&& !s.terminate_browser
        },
        WorkerOutcome::DeadlinePassed => {
            &&& s.reply matches ChartReply::Failure { status, body }
            &&& status == 504
            &&& body@ == spec_timeout_failure(timeout_seconds)
            &&& s.terminate_browser
        },
    }
}

fn string_of(s: &str) -> (r: String)
    ensures
        r@ == s@,
{
    s.to_owned()
}

/// The body of the health check endpoint.
pub fn health_check() -> (r: &'static str)
    ensures
        r@ == spec_health_body(),
{
    "{\"status\": \"ok\"}"
}

/// The answer to the request for `ticker` at `interval` under a request
/// timeout of `timeout_seconds`, once its work has ended with `outcome`.
pub fn settle(ticker: &str, interval: &str, timeout_seconds: u64, outcome: WorkerOutcome) -> (r:
    Settlement)
    ensures
        settles_as(ticker@, interval@, timeout_seconds, outcome, r),
        outcome is DeadlinePassed ==> r.terminate_browser && (r.reply matches ChartReply::Failure {
            status,
            body,
        } && status == 504 && body@ == "Scraping timed out after "@ + decimal(
            timeout_seconds as nat,
        ) + " seconds"@),
        outcome matches WorkerOutcome::Finished(Err(m)) ==> !r.terminate_browser && (
        r.reply matches ChartReply::Failure { status, body } && status == 500 && body@
            == "Scraping failed: "@ + m@),
        outcome matches WorkerOutcome::Crashed(m) ==> !r.terminate_browser && (
        r.reply matches ChartReply::Failure { status, body } && status == 500 && body@
            == "Internal server join error: "@ + m@),
        outcome matches WorkerOutcome::Finished(Ok(links)) ==> !r.terminate_browser && (
        r.reply matches ChartReply::Chart(resp) && resp.ticker@ == ticker@ && resp.interval@
            == interval@ && resp.image_url == links.image_url && resp.png_url == links.png_url),
{
    match outcome {
        WorkerOutcome::Finished(Ok(links)) => Settlement {
            reply: ChartReply::Chart(
                ChartResponse {
                    ticker: string_of(ticker),
                    interval: string_of(interval),
                    image_url: links.image_url,
                    png_url: links.png_url,
                },
            ),
            terminate_browser: false,
        },
        WorkerOutcome::Finished(Err(message)) => {
            let mut body = string_of("Scraping failed: ");
            body.append(message.as_str());
            Settlement { reply: ChartReply::Failure { status: 500, body }, terminate_browser: false }
        },
        WorkerOutcome::Crashed(message) => {
            let mut body = string_of("Internal server join error: ");
            body.append(message.as_str());
            Settlement { reply: ChartReply::Failure { status: 500, body }, terminate_browser: false }
        },
        WorkerOutcome::DeadlinePassed => {
            let mut body = string_of("Scraping timed out after ");
            push_decimal(&mut body, timeout_seconds);
            body.append(" seconds");
            Settlement { reply: ChartReply::Failure { status: 504, body }, terminate_browser: true }
        },
    }
}

impl ChartRequest {
    /// A request under a configuration whose save-shortcut switch is
    /// `use_save_shortcut`; it first checks the browser session.
    pub fn start(use_save_shortcut: bool) -> (r: (ChartRequest, RequestAction))
        ensures
            r.0.mode == mode_for(use_save_shortcut),
            use_save_shortcut ==> r.0.mode == CaptureMode::ImageData,
            !use_save_shortcut ==> r.0.mode == CaptureMode::ShareLink,
            r.0.stage@ == StageView::CheckingSession,
            r.1@ == ActionView::CheckSession,
    {
        let mode = if use_save_shortcut {
            CaptureMode::ImageData
        } else {
            CaptureMode::ShareLink
        };
        (ChartRequest { mode, stage: RequestStage::CheckingSession }, RequestAction::CheckSession)
    }

    /// Whether the request has been answered.
    pub fn is_done(&self) -> (r: bool)
        ensures
            r == (self.stage@ is Done),
    {
        match self.stage {
            RequestStage::Done => true,
            _ => false,
        }
    }

    /// The image link of the reply for a captured `image_url`.
    pub fn png_url(mode: CaptureMode, image_url: &str) -> (r: String)
        ensures
            r@ == spec_png_url(mode, image_url@),
    {
        match mode {
            CaptureMode::ImageData => string_of(image_url),
            CaptureMode::ShareLink => match TradingViewScraper::convert_link_to_image_url(
                image_url,
            ) {
                Some(png) => png,
                None => string_of(image_url),
            },
        }
    }

    /// Takes in what came of the last action and gives the next one.
    pub fn step(&mut self, event: RequestEvent) -> (action: RequestAction)
        requires
            !(old(self).stage@ is Done),
        ensures
            final(self).mode == old(self).mode,
            (final(self).stage@, action@) == next(old(self).mode, old(self).stage@, event@),
    {
        let mode = self.mode;
        match (&self.stage, event) {
            (RequestStage::CheckingSession, RequestEvent::SessionChecked { alive }) => {
                if alive {
                    self.stage = RequestStage::Capturing;
                    RequestAction::Capture(mode)
                } else {
                    self.stage = RequestStage::ReplacingDeadSession;
                    RequestAction::ReplaceSession
                }
            },
            (RequestStage::ReplacingDeadSession, RequestEvent::SessionReplaced(_)) => {
                self.stage = RequestStage::Capturing;
                RequestAction::Capture(mode)
            },
            (RequestStage::Capturing, RequestEvent::Captured(Ok(url))) => {
                self.stage = RequestStage::Done;
                let png_url = Self::png_url(mode, url.as_str());
                RequestAction::Reply(Ok(ChartLinks { image_url: url, png_url }))
            },
            (RequestStage::Capturing, RequestEvent::Captured(Err(e))) => {
                self.stage = RequestStage::Done;
                RequestAction::Reply(Err(e))
            },
            (RequestStage::CheckingSession, _) => RequestAction::CheckSession,
            (RequestStage::ReplacingDeadSession, _) => RequestAction::ReplaceSession,
            (RequestStage::Capturing, _) => RequestAction::Capture(mode),
            (RequestStage::Done, _) => RequestAction::CheckSession,
        }
    }
}

} // verus!
