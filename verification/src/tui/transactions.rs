//! The profile transactions as step machines: switching the current
//! profile (mark it current, fetch it, generate and apply the runtime
//! configuration, start the core when it is not running; on a failure
//! after the mark, the previous profile is marked current again) and
//! refreshing a subscription (read it, download it, convert it, import
//! it). Each step says which request the runtime sends next; the runtime
//! answers with the outcome of that request.

use vstd::prelude::*;

verus! {

/// Where a profile switch stands.
#[derive(Debug, Clone, PartialEq, Eq)]
pub enum SwitchStep {
    /// The profile is being marked current.
    Marking,
    /// Its configuration is being fetched.
    Fetching,
    /// The runtime configuration is being generated.
    Generating,
    /// The runtime configuration is being applied.
    Applying,
    /// The core's state is being asked.
    Checking,
    /// The core is being started.
    Starting,
    /// The previous profile is being marked current again after the
    /// failure reported here.
    RollingBack(String),
    Finished,
}

/// What the runtime does next for a profile switch.
#[derive(Debug, PartialEq, Eq)]
pub enum SwitchAction {
    /// Mark this profile current.
    SetCurrent(String),
    /// Fetch this profile's configuration.
    GetProfile(String),
    /// Generate the runtime configuration from this configuration text.
    Generate(String),
    /// Apply this runtime configuration.
    ApplyConfig(String),
    /// Ask the core's state.
    QueryStatus,
    StartCore,
    /// The switch is over, with its message or its failure.
    Finish(Result<String, String>),
    /// Nothing is left to do.
    Idle,
}

/// A profile switch: the profile switched to, the one that was current
/// before (if any), and the step reached.
#[derive(Debug, Clone, PartialEq, Eq)]
pub struct ProfileSwitch {
    pub uid: String,
    pub previous: Option<String>,
    pub step: SwitchStep,
}

/// `action` finishes with the failure `err`.
pub open spec fn finishes_with_error(action: SwitchAction, err: Seq<char>) -> bool {
    action matches SwitchAction::Finish(Err(m)) && m@ == err
}

/// What a failure after the mark leads to: with a previous profile, marking
/// it current again (the failure kept for the report); without one, the
/// report of the failure.
pub open spec fn rolled_back(prev: Option<String>, err: Seq<char>, after: ProfileSwitch, action: SwitchAction) -> bool {
    match prev {
        Some(p) => (after.step matches SwitchStep::RollingBack(m) && m@ == err) && (action matches SwitchAction::SetCurrent(
            u,
        ) && u@ == p@),
        None => after.step is Finished && finishes_with_error(action, err),
    }
}

/// The message of a completed switch.
pub open spec fn switched_text(uid: Seq<char>) -> Seq<char> {
    "switched to "@ + uid
}

/// One step of a profile switch: `before` takes the outcome of its
/// request (`Ok` with the answer's text where there is one) and becomes
/// `after`, asking for `action`.
pub open spec fn switch_advanced(
    before: ProfileSwitch,
    outcome: Result<String, String>,
    after: ProfileSwitch,
    action: SwitchAction,
) -> bool {
    &&& after.uid == before.uid
    &&& after.previous == before.previous
    &&& match before.step {
        SwitchStep::Marking => match outcome {
            Ok(_) => after.step is Fetching && (action matches SwitchAction::GetProfile(u) && u@ == before.uid@),
            Err(e) => after.step is Finished && finishes_with_error(action, "标记 current 失败: "@ + e@),
        },
        SwitchStep::Fetching => match outcome {
            Ok(yaml) => after.step is Generating && (action matches SwitchAction::Generate(y) && y@ == yaml@),
            Err(e) => rolled_back(before.previous, e@, after, action),
        },
        SwitchStep::Generating => match outcome {
            Ok(runtime) => after.step is Applying && (action matches SwitchAction::ApplyConfig(y) && y@ == runtime@),
            Err(e) => rolled_back(before.previous, "生成运行态配置失败: "@ + e@, after, action),
        },
        SwitchStep::Applying => match outcome {
            Ok(_) => after.step is Checking && action is QueryStatus,
            Err(e) => rolled_back(before.previous, "应用配置失败: "@ + e@, after, action),
        },
        SwitchStep::Checking => if outcome matches Ok(state) && state@ != "running"@ {
            after.step is Starting && action is StartCore
        } else {
            after.step is Finished && (action matches SwitchAction::Finish(Ok(m)) && m@ == switched_text(before.uid@))
        },
        SwitchStep::Starting => match outcome {
            Ok(_) => after.step is Finished && (action matches SwitchAction::Finish(Ok(m)) && m@ == switched_text(
                before.uid@,
            )),
            Err(e) => rolled_back(before.previous, "启动核心失败: "@ + e@, after, action),
        },
        SwitchStep::RollingBack(m) => after.step is Finished && finishes_with_error(action, m@),
        SwitchStep::Finished => after.step is Finished && action is Idle,
    }
}

/// Prefixes `e` with `prefix`.
fn prefixed(prefix: &str, e: String) -> (r: String)
    ensures
        r@ == prefix@ + e@,
{
    let mut r = String::from_str(prefix);
    r.append(e.as_str());
    r
}

impl ProfileSwitch {
    /// Starts switching to `uid`, `previous` being the current profile:
    /// the first request marks `uid` current.
    pub fn start(uid: String, previous: Option<String>) -> (r: (ProfileSwitch, SwitchAction))
        ensures
            r.0.uid == uid,
            r.0.previous == previous,
            r.0.step is Marking,
            r.1 matches SwitchAction::SetCurrent(u) && u@ == uid@,
    {
        let first = uid.clone();
        (ProfileSwitch { uid, previous, step: SwitchStep::Marking }, SwitchAction::SetCurrent(first))
    }

    /// After a failure past the mark: marks the previous profile current
    /// again, or reports the failure when there is none.
    fn fail(&mut self, err: String) -> (r: SwitchAction)
        ensures
            final(self).uid == old(self).uid,
            final(self).previous == old(self).previous,
            rolled_back(old(self).previous, err@, *final(self), r),
    {
        match &self.previous {
            Some(p) => {
                let back = p.clone();
                self.step = SwitchStep::RollingBack(err);
                SwitchAction::SetCurrent(back)
            },
            None => {
                self.step = SwitchStep::Finished;
                SwitchAction::Finish(Err(err))
            },
        }
    }

    /// Takes the outcome of the last request and says what to do next (see
    /// `switch_advanced`).
    pub fn advance(&mut self, outcome: Result<String, String>) -> (r: SwitchAction)
        ensures
            switch_advanced(*old(self), outcome, *final(self), r),
    {
        match self.step {
            SwitchStep::Marking => match outcome {
                Ok(_) => {
                    self.step = SwitchStep::Fetching;
                    SwitchAction::GetProfile(self.uid.clone())
                },
                Err(e) => {
                    self.step = SwitchStep::Finished;
                    SwitchAction::Finish(Err(prefixed("标记 current 失败: ", e)))
                },
            },
            SwitchStep::Fetching => match outcome {
                Ok(yaml) => {
                    self.step = SwitchStep::Generating;
                    SwitchAction::Generate(yaml)
                },
                Err(e) => self.fail(e),
            },
            SwitchStep::Generating => match outcome {
                Ok(runtime) => {
                    self.step = SwitchStep::Applying;
                    SwitchAction::ApplyConfig(runtime)
                },
                Err(e) => self.fail(prefixed("生成运行态配置失败: ", e)),
            },
            SwitchStep::Applying => match outcome {
                Ok(_) => {
                    self.step = SwitchStep::Checking;
                    SwitchAction::QueryStatus
                },
                Err(e) => self.fail(prefixed("应用配置失败: ", e)),
            },
            SwitchStep::Checking => {
                let start = match &outcome {
                    Ok(state) => !crate::text::str_eq(state.as_str(), "running"),
                    Err(_) => false,
                };
                if start {
                    self.step = SwitchStep::Starting;
                    SwitchAction::StartCore
                } else {
                    self.step = SwitchStep::Finished;
                    SwitchAction::Finish(Ok(prefixed("switched to ", self.uid.clone())))
                }
            },
            SwitchStep::Starting => match outcome {
                Ok(_) => {
                    self.step = SwitchStep::Finished;
                    SwitchAction::Finish(Ok(prefixed("switched to ", self.uid.clone())))
                },
                Err(e) => self.fail(prefixed("启动核心失败: ", e)),
            },
            SwitchStep::RollingBack(_) => {
                let mut step = SwitchStep::Finished;
                std::mem::swap(&mut step, &mut self.step);
                match step {
                    SwitchStep::RollingBack(m) => SwitchAction::Finish(Err(m)),
                    _ => {
                        proof {
                            assert(false);
                        }
                        SwitchAction::Idle
                    },
                }
            },
            SwitchStep::Finished => SwitchAction::Idle,
        }
    }
}

/// A failure after the profile was marked current puts the previous
/// profile back (when there was one) before anything else, and the
/// failure is what the switch then reports: the switch is a transaction.
pub proof fn lemma_switch_failure_rolls_back(
    before: ProfileSwitch,
    e: String,
    mid: ProfileSwitch,
    back: SwitchAction,
    any: Result<String, String>,
    after: ProfileSwitch,
    last: SwitchAction,
)
    requires
        before.step is Fetching || before.step is Generating || before.step is Applying || before.step is Starting,
        before.previous is Some,
        switch_advanced(before, Err(e), mid, back),
        switch_advanced(mid, any, after, last),
    ensures
        back matches SwitchAction::SetCurrent(u) && u@ == before.previous->0@,
        last matches SwitchAction::Finish(Err(m)) && (mid.step matches SwitchStep::RollingBack(k) && k@ == m@),
        after.step is Finished,
{
}

/// A switch reports success only from the last two steps: the core was
/// found running, or it was started.
pub proof fn lemma_switch_success_needs_core(
    before: ProfileSwitch,
    outcome: Result<String, String>,
    after: ProfileSwitch,
    action: SwitchAction,
)
    requires
        switch_advanced(before, outcome, after, action),
        action matches SwitchAction::Finish(Ok(_)),
    ensures
        before.step is Checking || (before.step is Starting && outcome is Ok),
{
}

/// Where a subscription refresh stands.
#[derive(Debug, Clone, Copy, PartialEq, Eq, Structural)]
pub enum UpdateStep {
    /// The profile's URL and interval are being read.
    Reading,
    /// The subscription is being downloaded.
    Downloading,
    /// The download is being converted to a configuration.
    Converting,
    /// The configuration is being imported.
    Importing,
    Finished,
}

/// The answer to the last request of a subscription refresh.
#[derive(Debug, Clone, PartialEq, Eq)]
pub enum UpdateEvent {
    /// The profile's URL and refresh interval.
    Profile { url: String, interval: u64 },
    /// The downloaded subscription.
    Downloaded(String),
    /// The configuration converted from it.
    Converted(String),
    /// The helper imported it, under this id, replacing a profile or not.
    Imported { uid: String, updated: bool },
    /// The request failed, with this message.
    Failed(String),
}

/// What the runtime does next for a subscription refresh.
#[derive(Debug, PartialEq, Eq)]
pub enum UpdateAction {
    /// Read this profile.
    GetProfile(String),
    /// Download this URL.
    Download(String),
    /// Convert this download to a configuration.
    Convert(String),
    /// Import the configuration under the URL and interval.
    Import { url: String, interval: u64, yaml: String },
    /// The refresh is over, with its message or its failure.
    Finish(Result<String, String>),
    /// Nothing to do: the answer did not belong to the step.
    Idle,
}

/// A subscription refresh: the profile, its URL and interval once read,
/// and the step reached.
#[derive(Debug, Clone, PartialEq, Eq)]
pub struct ProfileUpdate {
    pub uid: String,
    pub url: String,
    pub interval: u64,
    pub step: UpdateStep,
}

/// One step of a subscription refresh: `before` takes the answer `event`
/// and becomes `after`, asking for `action`. A failure ends the refresh
/// (a download failure as `download failed: ...`, a conversion failure as
/// `parse failed: ...`); an answer that does not belong to the step
/// changes nothing.
pub open spec fn update_advanced(before: ProfileUpdate, event: UpdateEvent, after: ProfileUpdate, action: UpdateAction) -> bool {
    &&& after.uid == before.uid
    &&& match (before.step, event) {
        (UpdateStep::Reading, UpdateEvent::Profile { url, interval }) => after.url == url && after.interval == interval
            && after.step is Downloading && (action matches UpdateAction::Download(u) && u@ == url@),
        (UpdateStep::Downloading, UpdateEvent::Downloaded(raw)) => after.url == before.url && after.interval
            == before.interval && after.step is Converting && (action matches UpdateAction::Convert(x) && x@ == raw@),
        (UpdateStep::Converting, UpdateEvent::Converted(yaml)) => after.url == before.url && after.interval
            == before.interval && after.step is Importing && (action matches UpdateAction::Import { url, interval, yaml: y }
            && url@ == before.url@ && interval == before.interval && y@ == yaml@),
        (UpdateStep::Importing, UpdateEvent::Imported { uid, updated }) => after.step is Finished && (
        action matches UpdateAction::Finish(Ok(m)) && m@ == (if updated {
            "profile updated: "@
        } else {
            "profile imported: "@
        }) + uid@),
        (UpdateStep::Finished, _) => after == before && action is Idle,
        (_, UpdateEvent::Failed(e)) => after.step is Finished && (action matches UpdateAction::Finish(Err(m)) && m@ == (
        match before.step {
            UpdateStep::Downloading => "download failed: "@ + e@,
            UpdateStep::Converting => "parse failed: "@ + e@,
            _ => e@,
        })),
        _ => after == before && action is Idle,
    }
}

impl ProfileUpdate {
    /// Starts refreshing the subscription of `uid`: the profile is read
    /// first.
    pub fn start(uid: String) -> (r: (ProfileUpdate, UpdateAction))
        ensures
            r.0.uid == uid,
            r.0.step is Reading,
            r.1 matches UpdateAction::GetProfile(u) && u@ == uid@,
    {
        let first = uid.clone();
        (ProfileUpdate { uid, url: String::new(), interval: 0, step: UpdateStep::Reading }, UpdateAction::GetProfile(first))
    }

    /// Takes the answer to the last request and says what to do next (see
    /// `update_advanced`).
    pub fn advance(&mut self, event: UpdateEvent) -> (r: UpdateAction)
        ensures
            update_advanced(*old(self), event, *final(self), r),
    {
        if self.step == UpdateStep::Finished {
            return UpdateAction::Idle;
        }
        match event {
            UpdateEvent::Profile { url, interval } => {
                if self.step != UpdateStep::Reading {
                    return UpdateAction::Idle;
                }
                self.url = url.clone();
                self.interval = interval;
                self.step = UpdateStep::Downloading;
                UpdateAction::Download(url)
            },
            UpdateEvent::Downloaded(raw) => {
                if self.step != UpdateStep::Downloading {
                    return UpdateAction::Idle;
                }
                self.step = UpdateStep::Converting;
                UpdateAction::Convert(raw)
            },
            UpdateEvent::Converted(yaml) => {
                if self.step != UpdateStep::Converting {
                    return UpdateAction::Idle;
                }
                self.step = UpdateStep::Importing;
                UpdateAction::Import { url: self.url.clone(), interval: self.interval, yaml }
            },
            UpdateEvent::Imported { uid, updated } => {
                if self.step != UpdateStep::Importing {
                    return UpdateAction::Idle;
                }
                self.step = UpdateStep::Finished;
                let prefix = if updated { "profile updated: " } else { "profile imported: " };
                UpdateAction::Finish(Ok(prefixed(prefix, uid)))
            },
            UpdateEvent::Failed(e) => {
                let m = match self.step {
                    UpdateStep::Downloading => prefixed("download failed: ", e),
                    UpdateStep::Converting => prefixed("parse failed: ", e),
                    _ => e,
                };
                self.step = UpdateStep::Finished;
                UpdateAction::Finish(Err(m))
            },
        }
    }
}

} // verus!
