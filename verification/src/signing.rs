//! The decisions of a sign-in run: which accounts take part, which activity
//! is meant, how each kind of sign-in gets what it needs, and how the
//! results are reported.

use crate::text::{
    chars_of, count_char, decimal, decimal_text, lemma_decimal_text_injective,
    lemma_split_pieces_shape, lemma_trimmed_idempotent, lemma_trimmed_shape, split_and_trim,
    split_pieces, trimmed,
};
use vstd::prelude::*;

verus! {

/// The user names listed in the `--account` argument: the text split at
/// every `,`, each piece trimmed of white space.
pub open spec fn account_list(account: Seq<char>) -> Seq<Seq<char>> {
    split_pieces(account, ',').map_values(|p: Seq<char>| trimmed(p))
}

/// The user names listed in the `--account` argument, in order.
pub fn split_accounts(account: &str) -> (names: Vec<String>)
    ensures
        names@.len() == account_list(account@).len(),
        forall|i: int| 0 <= i < names@.len() ==> #[trigger] names@[i]@ == account_list(account@)[i],
{
    let chars = chars_of(account);
    split_and_trim(&chars, ',')
}

/// The `--account` text names one account more than it holds commas; each
/// name is already trimmed and holds no comma.
pub proof fn lemma_account_list_shape(account: Seq<char>)
    ensures
        account_list(account).len() == count_char(account, ',') + 1,
        forall|i: int|
            0 <= i < account_list(account).len() ==> trimmed(#[trigger] account_list(account)[i])
                == account_list(account)[i],
        forall|i: int, k: int|
            0 <= i < account_list(account).len() && 0 <= k < account_list(account)[i].len()
                ==> #[trigger] account_list(account)[i][k] != ',',
{
    lemma_split_pieces_shape(account, ',');
    let pieces = split_pieces(account, ',');
    assert forall|i: int| 0 <= i < account_list(account).len() implies trimmed(
        #[trigger] account_list(account)[i],
    ) == account_list(account)[i] by {
        lemma_trimmed_idempotent(pieces[i]);
    }
    assert forall|i: int, k: int|
        0 <= i < account_list(account).len() && 0 <= k < account_list(account)[i].len() implies
        #[trigger] account_list(account)[i][k] != ',' by {
        lemma_trimmed_shape(pieces[i]);
        let (a, b) = choose|a: int, b: int|
            0 <= a <= b <= pieces[i].len() && trimmed(pieces[i]) == pieces[i].subrange(a, b);
        assert(account_list(account)[i][k] == pieces[i][a + k]);
    }
}

/// Where the activity with a given id was found.
#[derive(Debug, Clone, Copy, PartialEq, Eq, Structural)]
pub enum ActivityMatch {
    /// At this index among the activities in progress.
    Active(usize),
    /// At this index among the other activities.
    Other(usize),
    /// Nowhere.
    NotFound,
}

/// `i` is the first index of `ids` that holds `id`.
pub open spec fn first_index_of(ids: Seq<String>, id: Seq<char>, i: int) -> bool {
    &&& 0 <= i < ids.len()
    &&& ids[i]@ == id
    &&& forall|j: int| 0 <= j < i ==> #[trigger] ids[j]@ != id
}

/// `ids` holds `id`.
pub open spec fn holds_id(ids: Seq<String>, id: Seq<char>) -> bool {
    exists|i: int| 0 <= i < ids.len() && #[trigger] ids[i]@ == id
}

fn find_id(ids: &Vec<String>, id: &String) -> (r: Option<usize>)
    ensures
        r is None <==> !holds_id(ids@, id@),
        r matches Some(i) ==> first_index_of(ids@, id@, i as int),
{
    let mut i: usize = 0;
    while i < ids.len()
        invariant
            i <= ids@.len(),
            forall|j: int| 0 <= j < i ==> #[trigger] ids@[j]@ != id@,
        decreases ids.len() - i,
    {
        if ids[i] == *id {
            return Some(i);
        }
        i = i + 1;
    }
    None
}

/// Finds the activity whose id is `active_id` written in decimal, first
/// among the activities in progress, then among the others.
pub fn locate_activity(active_ids: &Vec<String>, other_ids: &Vec<String>, active_id: i64) -> (r:
    ActivityMatch)
    ensures
        r matches ActivityMatch::Active(i) ==> first_index_of(
            active_ids@,
            decimal_text(active_id as int),
            i as int,
        ),
        r matches ActivityMatch::Other(i) ==> !holds_id(
            active_ids@,
            decimal_text(active_id as int),
        ) && first_index_of(other_ids@, decimal_text(active_id as int), i as int),
        r is NotFound <==> !holds_id(active_ids@, decimal_text(active_id as int)) && !holds_id(
            other_ids@,
            decimal_text(active_id as int),
        ),
{
    let id = decimal(active_id);
    match find_id(active_ids, &id) {
        Some(i) => ActivityMatch::Active(i),
        None => match find_id(other_ids, &id) {
            Some(i) => ActivityMatch::Other(i),
            None => ActivityMatch::NotFound,
        },
    }
}

/// An activity is found only under its own id: two ids that both match the
/// same listed id text are the same number.
pub proof fn lemma_activity_id_unique(ids: Seq<String>, i: int, a: i64, b: i64)
    requires
        first_index_of(ids, decimal_text(a as int), i),
        first_index_of(ids, decimal_text(b as int), i),
    ensures
        a == b,
{
    lemma_decimal_text_injective(a as int, b as int);
}

/// The text of the panic when the requested activity does not exist.
pub open spec fn missing_activity_text(account_arg_used: bool) -> Seq<char> {
    if account_arg_used {
        "没有该签到活动！请检查签到活动 ID 是否正确或所指定的账号是否存在该签到活动！"@
    } else {
        "没有该签到活动！请检查签到活动 ID 是否正确！"@
    }
}

/// The text of the panic when the requested activity does not exist; it
/// mentions the accounts when they were given on the command line.
pub fn missing_activity_message(account_arg_used: bool) -> (m: &'static str)
    ensures
        m@ == missing_activity_text(account_arg_used),
{
    if account_arg_used {
        "没有该签到活动！请检查签到活动 ID 是否正确或所指定的账号是否存在该签到活动！"
    } else {
        "没有该签到活动！请检查签到活动 ID 是否正确！"
    }
}

/// `names` holds `name`.
pub open spec fn names_hold(names: Seq<String>, name: Seq<char>) -> bool {
    exists|j: int| 0 <= j < names.len() && #[trigger] names[j]@ == name
}

/// `chosen` lists, in increasing order, the positions of the sessions whose
/// user name is among `names`.
pub open spec fn selects(session_names: Seq<String>, names: Seq<String>, chosen: Seq<usize>) -> bool {
    &&& forall|a: int, b: int| 0 <= a < b < chosen.len() ==> #[trigger] chosen[a] < #[trigger] chosen[b]
    &&& forall|a: int| 0 <= a < chosen.len() ==> #[trigger] chosen[a] < session_names.len()
    &&& forall|i: int|
        0 <= i < session_names.len() ==> (chosen.contains(i as usize) <==> names_hold(
            names,
            #[trigger] session_names[i]@,
        ))
}

/// The positions, in increasing order, of the sessions of an activity whose
/// user name is among the selected `names`.
pub fn select_accounts(session_names: &Vec<String>, names: &Vec<String>) -> (chosen: Vec<usize>)
    ensures
        selects(session_names@, names@, chosen@),
{
    let mut chosen: Vec<usize> = Vec::new();
    for i in 0..session_names.len()
        invariant
            forall|a: int, b: int|
                0 <= a < b < chosen@.len() ==> #[trigger] chosen@[a] < #[trigger] chosen@[b],
            forall|a: int| 0 <= a < chosen@.len() ==> #[trigger] chosen@[a] < i,
            forall|k: int|
                0 <= k < i ==> (chosen@.contains(k as usize) <==> names_hold(
                    names@,
                    #[trigger] session_names@[k]@,
                )),
    {
        let ghost before = chosen@;
        if find_id(names, &session_names[i]).is_some() {
            chosen.push(i);
            assert(chosen@.last() == i);
        }
        assert forall|k: int| 0 <= k < i + 1 implies (chosen@.contains(k as usize) <==> names_hold(
            names@,
            #[trigger] session_names@[k]@,
        )) by {
            if k < i {
                if chosen@.contains(k as usize) {
                    let a = choose|a: int| 0 <= a < chosen@.len() && chosen@[a] == k as usize;
                    if a < before.len() {
                        assert(before[a] == k as usize);
                        assert(before.contains(k as usize));
                    }
                }
                if before.contains(k as usize) {
                    let a = choose|a: int| 0 <= a < before.len() && before[a] == k as usize;
                    assert(chosen@[a] == k as usize);
                }
            } else {
                if chosen@.contains(k as usize) {
                    let a = choose|a: int| 0 <= a < chosen@.len() && chosen@[a] == k as usize;
                    assert(a == before.len());
                }
                if names_hold(names@, session_names@[k]@) {
                    assert(chosen@[before.len() as int] == k as usize);
                }
            }
        }
    }
    chosen
}

/// An activity as the sign-in run sees it: its id and the user names of
/// the sessions that can sign it, in order.
#[derive(Debug, Clone)]
pub struct ActivityInfo {
    pub id: String,
    pub session_names: Vec<String>,
}

/// One of the listed activities.
#[derive(Debug, Clone, Copy, PartialEq, Eq, Structural)]
pub enum ActivityRef {
    /// This one of the activities in progress.
    Active(usize),
    /// This one of the other activities.
    Other(usize),
}

/// An activity to sign and the positions of its sessions to sign it with.
#[derive(Debug, Clone)]
pub struct SignTarget {
    pub activity: ActivityRef,
    pub accounts: Vec<usize>,
}

/// The ids of a list of activities.
pub open spec fn ids_of(acts: Seq<ActivityInfo>) -> Seq<String> {
    acts.map_values(|a: ActivityInfo| a.id)
}

fn collect_ids(acts: &Vec<ActivityInfo>) -> (ids: Vec<String>)
    ensures
        ids@ == ids_of(acts@),
{
    let mut ids: Vec<String> = Vec::new();
    for i in 0..acts.len()
        invariant
            ids@ == ids_of(acts@.take(i as int)),
    {
        ids.push(acts[i].id.clone());
        assert(ids_of(acts@.take(i + 1)) =~= ids_of(acts@.take(i as int)).push(acts@[i as int].id));
    }
    assert(acts@.take(acts@.len() as int) =~= acts@);
    ids
}

/// What a sign-in run signs. With an activity id: that activity, found
/// among those in progress and then among the others, with the sessions
/// whose user is among `names`; `None` when no activity has the id. Without
/// one: every activity in progress, in order, each with its sessions whose
/// user is among `names`.
pub fn sign_targets(
    active: &Vec<ActivityInfo>,
    other: &Vec<ActivityInfo>,
    activity: Option<i64>,
    names: &Vec<String>,
) -> (targets: Option<Vec<SignTarget>>)
    ensures
        match activity {
            Some(id) => {
                let text = decimal_text(id as int);
                &&& targets is None <==> (!holds_id(ids_of(active@), text) && !holds_id(
                    ids_of(other@),
                    text,
                ))
                &&& targets matches Some(t) ==> {
                    &&& t@.len() == 1
                    &&& match t@[0].activity {
                        ActivityRef::Active(i) => first_index_of(ids_of(active@), text, i as int)
                            && selects(active@[i as int].session_names@, names@, t@[0].accounts@),
                        ActivityRef::Other(i) => !holds_id(ids_of(active@), text)
                            && first_index_of(ids_of(other@), text, i as int) && selects(
                            other@[i as int].session_names@,
                            names@,
                            t@[0].accounts@,
                        ),
                    }
                }
            },
            None => targets matches Some(t) && t@.len() == active@.len() && forall|i: int|
                0 <= i < active@.len() ==> (#[trigger] t@[i]).activity == ActivityRef::Active(
                    i as usize,
                ) && selects(active@[i].session_names@, names@, t@[i].accounts@),
        },
{
    match activity {
        Some(id) => {
            let active_ids = collect_ids(active);
            let other_ids = collect_ids(other);
            match locate_activity(&active_ids, &other_ids, id) {
                ActivityMatch::Active(i) => {
                    let accounts = select_accounts(&active[i].session_names, names);
                    Some(vec![SignTarget { activity: ActivityRef::Active(i), accounts }])
                },
                ActivityMatch::Other(i) => {
                    let accounts = select_accounts(&other[i].session_names, names);
                    Some(vec![SignTarget { activity: ActivityRef::Other(i), accounts }])
                },
                ActivityMatch::NotFound => None,
            }
        },
        None => {
            let mut targets: Vec<SignTarget> = Vec::new();
            for i in 0..active.len()
                invariant
                    targets@.len() == i,
                    forall|k: int|
                        0 <= k < i ==> (#[trigger] targets@[k]).activity == ActivityRef::Active(
                            k as usize,
                        ) && selects(active@[k].session_names@, names@, targets@[k].accounts@),
            {
                let accounts = select_accounts(&active[i].session_names, names);
                targets.push(SignTarget { activity: ActivityRef::Active(i), accounts });
            }
            Some(targets)
        },
    }
}

/// The kind of a sign-in activity.
#[derive(Debug, Clone, Copy, PartialEq, Eq, Structural)]
pub enum SignType {
    Photo,
    Common,
    QrCode,
    Location,
    Gesture,
    SignCode,
    Unknown,
}

/// Which of the two code-based sign-ins an activity is.
#[derive(Debug, Clone, Copy, PartialEq, Eq, Structural)]
pub enum CodeKind {
    Gesture,
    SignCode,
}

/// How an activity is signed.
#[derive(Debug, Clone, Copy, PartialEq, Eq, Structural)]
pub enum SignStep {
    /// With a photo.
    Photo,
    /// Without anything further.
    Common,
    /// With the `enc` of a QR code and candidate positions.
    QrCode,
    /// With positions.
    Location,
    /// With the given gesture or sign code.
    Code,
    /// Not at all: a code is needed and none was given.
    MissingCode(CodeKind),
    /// Not at all: the activity's kind is not known.
    Invalid,
}

/// How an activity of kind `t` is signed, given whether a sign code was given.
pub open spec fn sign_step_of(t: SignType, has_code: bool) -> SignStep {
    match t {
        SignType::Photo => SignStep::Photo,
        SignType::Common => SignStep::Common,
        SignType::QrCode => SignStep::QrCode,
        SignType::Location => SignStep::Location,
        SignType::Unknown => SignStep::Invalid,
        SignType::Gesture => if has_code {
            SignStep::Code
        } else {
            SignStep::MissingCode(CodeKind::Gesture)
        },
        SignType::SignCode => if has_code {
            SignStep::Code
        } else {
            SignStep::MissingCode(CodeKind::SignCode)
        },
    }
}

/// What the step of a sign-in does with the activity's kind and the
/// code: a code-based activity (gesture or sign code) is signed with the
/// code exactly when one was given, and otherwise refused for the missing
/// code of its own kind; every other kind is signed the way its kind says,
/// whether or not a code was given.
pub open spec fn step_follows_type(t: SignType, has_code: bool, step: SignStep) -> bool {
    &&& (t == SignType::Gesture || t == SignType::SignCode) ==> (step == SignStep::Code
        <==> has_code)
    &&& (t == SignType::Gesture && !has_code) ==> step == SignStep::MissingCode(CodeKind::Gesture)
    &&& (t == SignType::SignCode && !has_code) ==> step == SignStep::MissingCode(
        CodeKind::SignCode,
    )
    &&& t == SignType::Photo ==> step == SignStep::Photo
    &&& t == SignType::Common ==> step == SignStep::Common
    &&& t == SignType::QrCode ==> step == SignStep::QrCode
    &&& t == SignType::Location ==> step == SignStep::Location
    &&& t == SignType::Unknown ==> step == SignStep::Invalid
    &&& step == SignStep::Code ==> has_code
}

/// The step chosen for each kind follows the rules above, for every kind
/// and whether or not a code was given.
pub proof fn lemma_sign_step_follows_type(t: SignType, has_code: bool)
    ensures
        step_follows_type(t, has_code, sign_step_of(t, has_code)),
{
}

/// How an activity of kind `t` is signed, given whether a sign code was given.
pub fn sign_step(t: SignType, has_code: bool) -> (step: SignStep)
    ensures
        step == sign_step_of(t, has_code),
        step_follows_type(t, has_code, step),
{
    proof {
        lemma_sign_step_follows_type(t, has_code);
    }
    match t {
        SignType::Photo => SignStep::Photo,
        SignType::Common => SignStep::Common,
        SignType::QrCode => SignStep::QrCode,
        SignType::Location => SignStep::Location,
        SignType::Unknown => SignStep::Invalid,
        SignType::Gesture => if has_code {
            SignStep::Code
        } else {
            SignStep::MissingCode(CodeKind::Gesture)
        },
        SignType::SignCode => if has_code {
            SignStep::Code
        } else {
            SignStep::MissingCode(CodeKind::SignCode)
        },
    }
}

/// What the file system says of the path given with `--pic`.
#[derive(Debug, Clone, Copy, PartialEq, Eq, Structural)]
pub enum PathKind {
    /// Its metadata could not be read.
    Unreadable,
    Directory,
    File,
}

/// Where the photo of a photo sign-in comes from.
#[derive(Debug, Clone, Copy, PartialEq, Eq, Structural)]
pub enum PhotoSource {
    /// The newest picture of the given directory.
    NewestInDirectory,
    /// The given file.
    GivenFile,
    /// Nowhere: no path was given.
    NoPath,
    /// Nowhere: the path's metadata could not be read.
    Unreadable,
}

/// Where the photo comes from, given what is known of the `--pic` path.
pub open spec fn photo_source_of(pic: Option<PathKind>) -> PhotoSource {
    match pic {
        None => PhotoSource::NoPath,
        Some(PathKind::Unreadable) => PhotoSource::Unreadable,
        Some(PathKind::Directory) => PhotoSource::NewestInDirectory,
        Some(PathKind::File) => PhotoSource::GivenFile,
    }
}

/// Where the photo of a photo sign-in comes from.
pub fn photo_source(pic: Option<PathKind>) -> (s: PhotoSource)
    ensures
        s == photo_source_of(pic),
        pic is None ==> s == PhotoSource::NoPath,
        pic == Some(PathKind::Unreadable) ==> s == PhotoSource::Unreadable,
        pic == Some(PathKind::Directory) ==> s == PhotoSource::NewestInDirectory,
        pic == Some(PathKind::File) ==> s == PhotoSource::GivenFile,
{
    match pic {
        None => PhotoSource::NoPath,
        Some(PathKind::Unreadable) => PhotoSource::Unreadable,
        Some(PathKind::Directory) => PhotoSource::NewestInDirectory,
        Some(PathKind::File) => PhotoSource::GivenFile,
    }
}

/// Where the QR code picture of a QR code sign-in comes from, when the
/// screen is not captured.
#[derive(Debug, Clone, Copy, PartialEq, Eq, Structural)]
pub enum QrSource {
    /// The newest picture of the given directory.
    NewestInDirectory,
    /// The given file.
    GivenFile,
    /// Nowhere: no path was given.
    NoPicture,
}

/// Where the QR code picture comes from, given what is known of the `--pic`
/// path; the path's metadata must be readable.
pub fn qr_source(pic: Option<PathKind>) -> (s: QrSource)
    requires
        pic != Some(PathKind::Unreadable),
    ensures
        pic is None ==> s == QrSource::NoPicture,
        pic == Some(PathKind::Directory) ==> s == QrSource::NewestInDirectory,
        pic == Some(PathKind::File) ==> s == QrSource::GivenFile,
{
    match pic {
        None => QrSource::NoPicture,
        Some(PathKind::Directory) => QrSource::NewestInDirectory,
        _ => QrSource::GivenFile,
    }
}

/// What a QR code sign-in signs with.
#[derive(Debug, Clone, PartialEq, Eq)]
pub enum QrInput<T> {
    /// The QR code parameters read from the screen.
    Screen(T),
    /// The picture given with `--pic`.
    PictureArgument,
}

/// What a QR code sign-in signs with: the parameters read from the screen
/// when `--capture` is set and the screen yielded some (the screen is read
/// only then), else the `--pic` picture.
pub fn qr_input<T>(capture: bool, screen: Option<T>) -> (input: QrInput<T>)
    ensures
        capture && screen is Some ==> input == QrInput::Screen(screen->0),
        !(capture && screen is Some) ==> input == QrInput::<T>::PictureArgument,
{
    match screen {
        Some(enc) if capture => QrInput::Screen(enc),
        _ => QrInput::PictureArgument,
    }
}

/// Where the positions of a QR code or location sign-in come from.
#[derive(Debug, Clone, PartialEq, Eq)]
pub enum PositionSource {
    /// The position written on the command line (`--pos`).
    Given(String),
    /// The stored position with this id (`--location`).
    Stored(i64),
    /// The positions stored for the activity's course, then those stored
    /// for every course.
    CourseAndGlobal,
}

/// Where the positions come from: `--pos` wins over `--location`.
pub open spec fn position_source_of(location: Option<i64>, pos: Option<String>) -> PositionSource {
    match pos {
        Some(p) => PositionSource::Given(p),
        None => match location {
            Some(l) => PositionSource::Stored(l),
            None => PositionSource::CourseAndGlobal,
        },
    }
}

/// The positions follow the arguments: a `--pos` text is used whatever
/// `--location` says; without it a `--location` id picks the stored
/// position; without both the stored fallbacks are used.
pub open spec fn source_follows_arguments(
    location: Option<i64>,
    pos: Option<String>,
    s: PositionSource,
) -> bool {
    &&& pos is Some ==> s == PositionSource::Given(pos->0)
    &&& (pos is None && location is Some) ==> s == PositionSource::Stored(location->0)
    &&& (pos is None && location is None) ==> s == PositionSource::CourseAndGlobal
}

/// Where the positions come from follows the arguments, for all of them.
pub proof fn lemma_position_source_follows_arguments(location: Option<i64>, pos: Option<String>)
    ensures
        source_follows_arguments(location, pos, position_source_of(location, pos)),
{
}

/// Where the positions of a sign-in come from.
pub fn position_source(location: Option<i64>, pos: &Option<String>) -> (s: PositionSource)
    ensures
        s == position_source_of(location, *pos),
        source_follows_arguments(location, *pos, s),
{
    proof {
        lemma_position_source_follows_arguments(location, *pos);
    }
    match pos {
        Some(p) => PositionSource::Given(p.clone()),
        None => match location {
            Some(l) => PositionSource::Stored(l),
            None => PositionSource::CourseAndGlobal,
        },
    }
}

/// Whether a location sign-in is told that its positions are the stored
/// fallbacks rather than one chosen position.
pub fn positions_are_fallback(s: &PositionSource) -> (b: bool)
    ensures
        b == (*s is CourseAndGlobal),
{
    match s {
        PositionSource::CourseAndGlobal => true,
        _ => false,
    }
}

/// How `Debug` renders a string: quoted, with special characters escaped.
pub uninterp spec fn debug_text_of(s: Seq<char>) -> Seq<char>;

/// `format!("{:?}", s)`: the string quoted and escaped as `Debug` does it;
/// the contract names the result as a fixed function of the text.
#[verifier::external_body]
fn debug_text(s: &str) -> (d: String)
    ensures
        d@ == debug_text_of(s@),
{
    format!("{:?}", s)
}

/// `a + b + c` as one string.
fn concat3(a: &str, b: &str, c: &str) -> (s: String)
    ensures
        s@ == a@ + b@ + c@,
{
    let mut s = String::new();
    s.append(a);
    s.append(b);
    s.append(c);
    s
}

/// The error printed when a photo sign-in has no photo path.
pub fn photo_without_path_message(name: &str) -> (m: String)
    ensures
        m@ == "所有用户在拍照签到["@ + name@ + "]中签到失败！未提供照片路径！"@,
{
    concat3("所有用户在拍照签到[", name, "]中签到失败！未提供照片路径！")
}

/// The error printed when the metadata of a photo sign-in's path cannot be
/// read; `shown` is the path as `Debug` renders it.
pub fn photo_unreadable_message(name: &str, shown: &str) -> (m: String)
    ensures
        m@ == "所有用户在拍照签到["@ + name@ + "]中签到失败！未能获取"@ + shown@ + "的元信息！"@,
{
    let mut m = concat3("所有用户在拍照签到[", name, "]中签到失败！未能获取");
    m.append(shown);
    m.append("的元信息！");
    m
}

/// The error printed when a QR code sign-in has no QR code picture.
pub fn qrcode_missing_message(name: &str) -> (m: String)
    ensures
        m@ == "所有用户在二维码签到["@ + name@ + "]中签到失败！二维码签到需要提供签到二维码！"@,
{
    concat3("所有用户在二维码签到[", name, "]中签到失败！二维码签到需要提供签到二维码！")
}

/// The error printed for an activity of unknown kind.
pub fn invalid_type_message(name: &str) -> (m: String)
    ensures
        m@ == "签到活动["@ + name@ + "]为无效签到类型！"@,
{
    concat3("签到活动[", name, "]为无效签到类型！")
}

/// How a code-based sign-in is called in messages.
pub open spec fn code_kind_text(k: CodeKind) -> Seq<char> {
    match k {
        CodeKind::Gesture => "手势"@,
        CodeKind::SignCode => "签到码"@,
    }
}

/// The error printed when a code-based sign-in has no code.
pub fn missing_code_message(kind: CodeKind, name: &str) -> (m: String)
    ensures
        m@ == "所有用户在"@ + code_kind_text(kind) + "签到["@ + name@ + "]中签到失败！需要提供签到码！"@,
{
    let kind_text = match kind {
        CodeKind::Gesture => "手势",
        CodeKind::SignCode => "签到码",
    };
    let mut m = concat3("所有用户在", kind_text, "签到[");
    m.append(name);
    m.append("]中签到失败！需要提供签到码！");
    m
}

/// One printed line of a sign-in report.
#[derive(Debug, Clone)]
pub struct ReportLine {
    /// Printed to standard error rather than standard output.
    pub to_stderr: bool,
    pub text: String,
}

/// The line reporting the outcome for user `uname`: `failure` is the
/// failure message, if the sign-in failed.
pub open spec fn outcome_text(uname: Seq<char>, failure: Option<String>) -> Seq<char> {
    match failure {
        Some(msg) => "\t用户["@ + uname + "]签到失败！失败信息：["@ + debug_text_of(msg@) + "]"@,
        None => "\t用户["@ + uname + "]签到成功！"@,
    }
}

/// The report line of user `uname` whose sign-in succeeded.
pub fn success_line(uname: &str) -> (line: String)
    ensures
        line@ == outcome_text(uname@, None),
{
    concat3("\t用户[", uname, "]签到成功！")
}

/// The report line of user `uname` whose sign-in failed; `shown` is the
/// failure message as `Debug` renders it.
pub fn failure_line(uname: &str, shown: &str) -> (line: String)
    ensures
        line@ == "\t用户["@ + uname@ + "]签到失败！失败信息：["@ + shown@ + "]"@,
{
    let mut line = concat3("\t用户[", uname, "]签到失败！失败信息：[");
    line.append(shown);
    line.append("]");
    line
}

/// The report of the sign-in of activity `name`: nothing when no account
/// took part; else a heading on standard output, then one line per account
/// in the given order, failures on standard error.
pub fn sign_report(name: &str, outcomes: &Vec<(String, Option<String>)>) -> (lines: Vec<
    ReportLine,
>)
    ensures
        outcomes@.len() == 0 ==> lines@.len() == 0,
        outcomes@.len() > 0 ==> {
            &&& lines@.len() == outcomes@.len() + 1
            &&& !lines@[0].to_stderr
            &&& lines@[0].text@ == "签到活动["@ + name@ + "]签到结果："@
            &&& forall|i: int|
                0 <= i < outcomes@.len() ==> {
                    &&& (#[trigger] lines@[i + 1]).to_stderr == (outcomes@[i].1 is Some)
                    &&& lines@[i + 1].text@ == outcome_text(outcomes@[i].0@, outcomes@[i].1)
                }
        },
{
    let mut lines: Vec<ReportLine> = Vec::new();
    if outcomes.len() == 0 {
        return lines;
    }
    lines.push(ReportLine { to_stderr: false, text: concat3("签到活动[", name, "]签到结果：") });
    for i in 0..outcomes.len()
        invariant
            lines@.len() == i + 1,
            !lines@[0].to_stderr,
            lines@[0].text@ == "签到活动["@ + name@ + "]签到结果："@,
            forall|k: int|
                0 <= k < i ==> {
                    &&& (#[trigger] lines@[k + 1]).to_stderr == (outcomes@[k].1 is Some)
                    &&& lines@[k + 1].text@ == outcome_text(outcomes@[k].0@, outcomes@[k].1)
                },
    {
        let uname = outcomes[i].0.as_str();
        let line = match &outcomes[i].1 {
            Some(msg) => {
                let shown = debug_text(msg.as_str());
                ReportLine { to_stderr: true, text: failure_line(uname, shown.as_str()) }
            },
            None => ReportLine { to_stderr: false, text: success_line(uname) },
        };
        lines.push(line);
    }
    lines
}

} // verus!
