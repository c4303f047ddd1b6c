//! The `xddcc` sub-command: which live-stream query the arguments ask for,
//! which accounts it runs under, and which arguments are redundant.

use std::path::PathBuf;
use vstd::prelude::*;

verus! {

/// The arguments of `xddcc`.
#[derive(Debug, Clone)]
pub struct XddccParser {
    /// Accounts to use, as a comma-separated list of user names.
    pub uid: Option<String>,
    /// Look the live stream up by its device code.
    pub device_code: Option<String>,
    /// Look recordings up by `live_id`.
    pub id: Option<i64>,
    /// Only list the `live_id` of every lesson of a course.
    pub just_id: bool,
    /// Where to write the result.
    pub output: Option<PathBuf>,
    /// List all device codes.
    pub list: bool,
    /// The previous lesson instead of the next one, or a single recording.
    pub previous: bool,
}

/// An argument that was given but plays no part in the chosen query; its
/// warning names the flag as the command line defines it.
#[derive(Debug, Clone, Copy, PartialEq, Eq, Structural)]
pub enum ExtraArg {
    DeviceCode,
    Previous,
    Id,
    JustId,
    Uid,
}

/// The warning logged for a redundant argument.
pub open spec fn extra_arg_warning(a: ExtraArg) -> Seq<char> {
    match a {
        ExtraArg::DeviceCode => "多余的参数: `-d, --device-code`."@,
        ExtraArg::Previous => "多余的参数: `-p, --previous`."@,
        ExtraArg::Id => "多余的参数: `-i, --id`."@,
        ExtraArg::JustId => "多余的参数: `-j, --just-id`."@,
        ExtraArg::Uid => "多余的参数: `-u, --uid`."@,
    }
}

impl ExtraArg {
    /// The warning logged for this redundant argument.
    pub fn warning(&self) -> (w: &'static str)
        ensures
            w@ == extra_arg_warning(*self),
    {
        match self {
            ExtraArg::DeviceCode => "多余的参数: `-d, --device-code`.",
            ExtraArg::Previous => "多余的参数: `-p, --previous`.",
            ExtraArg::Id => "多余的参数: `-i, --id`.",
            ExtraArg::JustId => "多余的参数: `-j, --just-id`.",
            ExtraArg::Uid => "多余的参数: `-u, --uid`.",
        }
    }
}

/// Which logged-in accounts a query runs under.
#[derive(Debug, Clone, PartialEq, Eq)]
pub enum SessionSource {
    /// The accounts named in a comma-separated list of user names.
    UidList(String),
    /// Every logged-in account.
    All,
}

/// What is logged when no account is available.
#[derive(Debug, Clone, Copy, PartialEq, Eq, Structural)]
pub enum NoSessionNotice {
    LoginAtLeastOne,
    NoAccount,
}

/// The warning text of a [`NoSessionNotice`].
pub open spec fn no_session_warning(n: NoSessionNotice) -> Seq<char> {
    match n {
        NoSessionNotice::LoginAtLeastOne => "请至少登录一个账号！"@,
        NoSessionNotice::NoAccount => "未有登录的账号！"@,
    }
}

impl NoSessionNotice {
    /// The warning logged when no account is available.
    pub fn warning(&self) -> (w: &'static str)
        ensures
            w@ == no_session_warning(*self),
    {
        match self {
            NoSessionNotice::LoginAtLeastOne => "请至少登录一个账号！",
            NoSessionNotice::NoAccount => "未有登录的账号！",
        }
    }
}

/// The query that `xddcc` performs.
#[derive(Debug, Clone, PartialEq, Eq)]
pub enum XddccTask {
    /// Every room (device code) seen by the accounts, sorted by key.
    ListRooms,
    /// The live video address of one device code, with the first account.
    LiveVideoPath { device_code: String },
    /// The recording address of one lesson, with the first account.
    RecordingUrl { live_id: i64 },
    /// The `live_id` of every lesson of the course, with the first account.
    Lessons { live_id: i64 },
    /// The recordings of the whole course, sorted by key, with the first account.
    RecordingLives { live_id: i64 },
    /// The current (or previous) lesson's live streams of every account, sorted by key.
    LivesNow { previous: bool },
}

/// The task runs with the first available account only, and does nothing
/// when there is none.
pub open spec fn task_needs_one_session(t: XddccTask) -> bool {
    match t {
        XddccTask::ListRooms => false,
        XddccTask::LivesNow { .. } => false,
        _ => true,
    }
}

impl XddccTask {
    /// Whether the task runs with the first available account only.
    pub fn needs_one_session(&self) -> (b: bool)
        ensures
            b == task_needs_one_session(*self),
            b <==> (*self is LiveVideoPath || *self is RecordingUrl || *self is Lessons
                || *self is RecordingLives),
    {
        match self {
            XddccTask::ListRooms => false,
            XddccTask::LivesNow { .. } => false,
            _ => true,
        }
    }
}

/// What `xddcc` does for given arguments.
#[derive(Debug, Clone)]
pub struct XddccPlan {
    /// Warnings logged first, in this order.
    pub warnings: Vec<ExtraArg>,
    /// The accounts the query runs under.
    pub sessions: SessionSource,
    /// Logged when `sessions` yields no account.
    pub no_session: NoSessionNotice,
    /// The query.
    pub task: XddccTask,
    /// Warnings logged after the accounts were found, only when there is one.
    pub warnings_with_session: Vec<ExtraArg>,
    /// Where the result is written.
    pub output: Option<PathBuf>,
}

/// `seq![a]` when `b` holds, else the empty sequence.
pub open spec fn when(b: bool, a: ExtraArg) -> Seq<ExtraArg> {
    if b {
        seq![a]
    } else {
        Seq::empty()
    }
}

/// The warnings logged before any account is looked up.
pub open spec fn leading_warnings(p: XddccParser) -> Seq<ExtraArg> {
    if p.list {
        when(p.device_code is Some, ExtraArg::DeviceCode) + when(p.previous, ExtraArg::Previous)
            + when(p.id is Some, ExtraArg::Id) + when(p.just_id, ExtraArg::JustId)
    } else if p.device_code is Some {
        when(p.uid is Some, ExtraArg::Uid) + when(p.previous, ExtraArg::Previous) + when(
            p.id is Some,
            ExtraArg::Id,
        ) + when(p.just_id, ExtraArg::JustId)
    } else if p.id is Some {
        Seq::empty()
    } else {
        when(p.just_id, ExtraArg::JustId)
    }
}

/// The warnings logged once an account was found.
pub open spec fn session_warnings(p: XddccParser) -> Seq<ExtraArg> {
    when(
        !p.list && p.device_code is None && p.id is Some && p.previous && p.just_id,
        ExtraArg::JustId,
    )
}

/// The accounts the query runs under.
pub open spec fn planned_sessions(p: XddccParser) -> SessionSource {
    if !p.list && p.device_code is Some {
        SessionSource::All
    } else {
        match p.uid {
            Some(u) => SessionSource::UidList(u),
            None => SessionSource::All,
        }
    }
}

/// The query: listing wins over a device code, which wins over a `live_id`.
pub open spec fn planned_task(p: XddccParser) -> XddccTask {
    if p.list {
        XddccTask::ListRooms
    } else if p.device_code is Some {
        XddccTask::LiveVideoPath { device_code: p.device_code->0 }
    } else if p.id is Some {
        if p.previous {
            XddccTask::RecordingUrl { live_id: p.id->0 }
        } else if p.just_id {
            XddccTask::Lessons { live_id: p.id->0 }
        } else {
            XddccTask::RecordingLives { live_id: p.id->0 }
        }
    } else {
        XddccTask::LivesNow { previous: p.previous }
    }
}

/// The notice for a missing account.
pub open spec fn planned_notice(p: XddccParser) -> NoSessionNotice {
    if p.list {
        NoSessionNotice::LoginAtLeastOne
    } else {
        NoSessionNotice::NoAccount
    }
}

fn push_if(v: &mut Vec<ExtraArg>, b: bool, a: ExtraArg)
    ensures
        final(v)@ == old(v)@ + when(b, a),
{
    if b {
        v.push(a);
    }
    assert(final(v)@ =~= old(v)@ + when(b, a));
}

/// Where an argument's warning comes in the fixed order of the flags.
pub open spec fn flag_rank(a: ExtraArg) -> int {
    match a {
        ExtraArg::Uid => 0,
        ExtraArg::DeviceCode => 1,
        ExtraArg::Previous => 2,
        ExtraArg::Id => 3,
        ExtraArg::JustId => 4,
    }
}

/// The warnings come in the order of the flags: `--uid`, `--device-code`,
/// `--previous`, `--id`, `--just-id`.
pub proof fn lemma_warnings_in_flag_order(p: XddccParser)
    ensures
        forall|i: int, j: int|
            0 <= i < j < leading_warnings(p).len() ==> flag_rank(
                #[trigger] leading_warnings(p)[i],
            ) < flag_rank(#[trigger] leading_warnings(p)[j]),
{
}

/// What the arguments ask of `xddcc`, stated flag by flag:
/// - `--list` lists every room; else a device code asks for its live
///   video; else a `live_id` asks for the recording address (`--previous`),
///   the lesson ids (`--just-id`) or the course's recordings; else the live
///   streams of the next lesson, or of the previous one with `--previous`;
/// - a `--uid` list picks the accounts of every query but the device-code
///   one, which uses every account;
/// - only `--list` asks the user to log in at least once.
pub open spec fn plan_honours_arguments(
    p: XddccParser,
    sessions: SessionSource,
    task: XddccTask,
    no_session: NoSessionNotice,
) -> bool {
    &&& p.list ==> task == XddccTask::ListRooms
    &&& (!p.list && p.device_code is Some) ==> task == XddccTask::LiveVideoPath {
        device_code: p.device_code->0,
    }
    &&& (!p.list && p.device_code is None && p.id is Some) ==> {
        &&& p.previous ==> task == XddccTask::RecordingUrl { live_id: p.id->0 }
        &&& !p.previous && p.just_id ==> task == XddccTask::Lessons { live_id: p.id->0 }
        &&& !p.previous && !p.just_id ==> task == XddccTask::RecordingLives {
            live_id: p.id->0,
        }
    }
    &&& !p.list && p.device_code is None && p.id is None ==> task == XddccTask::LivesNow {
        previous: p.previous,
    }
    &&& (p.list || p.device_code is None) ==> (p.uid is Some ==> sessions
        == SessionSource::UidList(p.uid->0))
    &&& (p.list || p.device_code is None) ==> (p.uid is None ==> sessions == SessionSource::All)
    &&& !p.list && p.device_code is Some ==> sessions == SessionSource::All
    &&& (no_session == NoSessionNotice::LoginAtLeastOne <==> p.list)
}

/// The planned query, accounts and notice do what the arguments ask, flag
/// by flag; in particular `--previous` alone decides between the next and
/// the previous lesson, and `--uid` is never called redundant unless a
/// device code is looked up.
pub proof fn lemma_plan_honours_arguments(p: XddccParser)
    ensures
        plan_honours_arguments(p, planned_sessions(p), planned_task(p), planned_notice(p)),
        leading_warnings(p).contains(ExtraArg::Uid) ==> !p.list && p.device_code is Some,
        !session_warnings(p).contains(ExtraArg::Uid),
{
    broadcast use vstd::seq_lib::group_seq_properties;

    lemma_warnings_are_unused_arguments(p);
    assert(!session_warnings(p).contains(ExtraArg::Uid)) by {
        if session_warnings(p).contains(ExtraArg::Uid) {
            let k = choose|k: int|
                0 <= k < session_warnings(p).len() && session_warnings(p)[k] == ExtraArg::Uid;
            assert(session_warnings(p)[k] == ExtraArg::JustId);
        }
    }
}

impl XddccParser {
    /// Decides what `xddcc` does: the warnings for redundant arguments, the
    /// accounts to use, and the query.
    pub fn plan(self) -> (plan: XddccPlan)
        ensures
            plan.warnings@ == leading_warnings(self),
            plan.sessions == planned_sessions(self),
            plan.no_session == planned_notice(self),
            plan.task == planned_task(self),
            plan.warnings_with_session@ == session_warnings(self),
            plan.output == self.output,
            plan_honours_arguments(self, plan.sessions, plan.task, plan.no_session),
            forall|i: int, j: int|
                0 <= i < j < plan.warnings@.len() ==> flag_rank(#[trigger] plan.warnings@[i])
                    < flag_rank(#[trigger] plan.warnings@[j]),
            forall|a: ExtraArg|
                (plan.warnings@ + plan.warnings_with_session@).contains(a) <==> (arg_given(
                    self,
                    a,
                ) && !arg_used(plan.sessions, plan.task, a)),
    {
        let ghost p = self;
        proof {
            lemma_plan_honours_arguments(p);
            lemma_warnings_in_flag_order(p);
            lemma_warnings_are_unused_arguments(p);
        }
        let XddccParser { uid, device_code, id, just_id, output, list, previous } = self;
        let mut warnings: Vec<ExtraArg> = Vec::new();
        let mut later: Vec<ExtraArg> = Vec::new();
        assert(warnings@ =~= Seq::<ExtraArg>::empty());
        let has_uid = uid.is_some();
        let uid_source = match uid {
            Some(u) => SessionSource::UidList(u),
            None => SessionSource::All,
        };
        if list {
            push_if(&mut warnings, device_code.is_some(), ExtraArg::DeviceCode);
            push_if(&mut warnings, previous, ExtraArg::Previous);
            push_if(&mut warnings, id.is_some(), ExtraArg::Id);
            push_if(&mut warnings, just_id, ExtraArg::JustId);
            assert(later@ =~= session_warnings(p));
            XddccPlan {
                warnings,
                sessions: uid_source,
                no_session: NoSessionNotice::LoginAtLeastOne,
                task: XddccTask::ListRooms,
                warnings_with_session: later,
                output,
            }
        } else if let Some(device_code) = device_code {
            push_if(&mut warnings, has_uid, ExtraArg::Uid);
            push_if(&mut warnings, previous, ExtraArg::Previous);
            push_if(&mut warnings, id.is_some(), ExtraArg::Id);
            push_if(&mut warnings, just_id, ExtraArg::JustId);
            assert(later@ =~= session_warnings(p));
            XddccPlan {
                warnings,
                sessions: SessionSource::All,
                no_session: NoSessionNotice::NoAccount,
                task: XddccTask::LiveVideoPath { device_code },
                warnings_with_session: later,
                output,
            }
        } else if let Some(live_id) = id {
            let task = if previous {
                push_if(&mut later, just_id, ExtraArg::JustId);
                XddccTask::RecordingUrl { live_id }
            } else if just_id {
                XddccTask::Lessons { live_id }
            } else {
                XddccTask::RecordingLives { live_id }
            };
            assert(later@ =~= session_warnings(p));
            XddccPlan {
                warnings,
                sessions: uid_source,
                no_session: NoSessionNotice::NoAccount,
                task,
                warnings_with_session: later,
                output,
            }
        } else {
            push_if(&mut warnings, just_id, ExtraArg::JustId);
            assert(later@ =~= session_warnings(p));
            XddccPlan {
                warnings,
                sessions: uid_source,
                no_session: NoSessionNotice::NoAccount,
                task: XddccTask::LivesNow { previous },
                warnings_with_session: later,
                output,
            }
        }
    }
}

/// The argument `a` was given on the command line.
pub open spec fn arg_given(p: XddccParser, a: ExtraArg) -> bool {
    match a {
        ExtraArg::DeviceCode => p.device_code is Some,
        ExtraArg::Previous => p.previous,
        ExtraArg::Id => p.id is Some,
        ExtraArg::JustId => p.just_id,
        ExtraArg::Uid => p.uid is Some,
    }
}

/// The query, run under `sessions`, makes use of the argument `a`.
pub open spec fn arg_used(sessions: SessionSource, task: XddccTask, a: ExtraArg) -> bool {
    match a {
        ExtraArg::DeviceCode => task is LiveVideoPath,
        ExtraArg::Previous => task is RecordingUrl || task is LivesNow,
        ExtraArg::Id => task is RecordingUrl || task is Lessons || task is RecordingLives,
        ExtraArg::JustId => task is Lessons,
        ExtraArg::Uid => sessions is UidList,
    }
}

/// An argument is warned about as redundant exactly when it was given and
/// the chosen query does not use it; no argument is warned about twice.
pub proof fn lemma_warnings_are_unused_arguments(p: XddccParser)
    ensures
        forall|a: ExtraArg|
            (leading_warnings(p) + session_warnings(p)).contains(a) <==> (arg_given(p, a)
                && !arg_used(planned_sessions(p), planned_task(p), a)),
        (leading_warnings(p) + session_warnings(p)).no_duplicates(),
{
    broadcast use vstd::seq_lib::group_seq_properties;

    let w = leading_warnings(p) + session_warnings(p);
    assert forall|a: ExtraArg| w.contains(a) <==> (arg_given(p, a) && !arg_used(
        planned_sessions(p),
        planned_task(p),
        a,
    )) by {
        if arg_given(p, a) && !arg_used(planned_sessions(p), planned_task(p), a) {
            assert(when(true, a).contains(a)) by {
                assert(when(true, a)[0] == a);
            }
        }
    }
}

} // verus!
