use vstd::prelude::*;

verus! {

/// The kinds of script step, each known by a numeric id; `Unknown` stands
/// for every id that is not in the table.
#[derive(Debug, Clone, Copy, PartialEq, Eq, Structural)]
pub enum ScriptStep {
    Unknown,
    PerformScript,
    GoToPreviousField,
    GoToNextField,
    GoToLayout,
    NewRecordRequest,
    DuplicateRecordRequest,
    DeleteRecordRequest,
    DeleteAllRecords,
    GoToRecordRequestPage,
    GoToField,
    CheckRecord,
    CheckFoundSet,
    UnsortRecords,
    EnterFindMode,
    ShowAllRecords,
    ModifyLastFind,
    OmitRecord,
    OmitMultipleRecords,
    ShowOmittedOnly,
    PerformFind,
    OpenHelp,
    OpenManageDatabase,
    ExitApplication,
    SelectAll,
    EnterBrowseMode,
    IfStart,
    Else,
    IfEnd,
    LoopStart,
    ExitLoopIf,
    LoopEnd,
    CommitRecordRequests,
    SetFieldData,
    FixWindow,
    NewFile,
    AllowUserAbort,
    SetErrorRecording,
    OpenScriptWorkspace,
    Comment,
    HaltScript,
    ReplaceFieldContents,
    Beep,
    SetUseSystemFormats,
    GoToPortalRow,
    CopyRecordRequest,
    FlushCacheToDisk,
    ExitScript,
    OpenSettings,
    CorrectWord,
    SpellingOptions,
    SelectDictionaries,
    EditUserDictionary,
    OpenManageValueLists,
    OpenSharing,
    OpenFileOptions,
    AllowFormattingBar,
    OpenHosts,
    CloseWindow,
    NewWindow,
    IfElse,
    ConstrainFoundSet,
    ExtendFoundSet,
    OpenFindReplace,
    OpenManageDataSources,
    SetVariable,
    GoToObject,
    OpenEditSavedFinds,
    OpenManageLayouts,
    OpenManageContainers,
    OpenManageThemes,
    RefreshObject,
    ClosePopover,
    UploadToServer,
    OpenMyApps,
}

/// The numeric id of each kind of step.
pub open spec fn step_id(step: ScriptStep) -> u32 {
    match step {
        ScriptStep::Unknown => 0,
        ScriptStep::PerformScript => 1,
        ScriptStep::GoToPreviousField => 4,
        ScriptStep::GoToNextField => 5,
        ScriptStep::GoToLayout => 6,
        ScriptStep::NewRecordRequest => 7,
        ScriptStep::DuplicateRecordRequest => 8,
        ScriptStep::DeleteRecordRequest => 9,
        ScriptStep::DeleteAllRecords => 10,
        ScriptStep::GoToRecordRequestPage => 16,
        ScriptStep::GoToField => 17,
        ScriptStep::CheckRecord => 19,
        ScriptStep::CheckFoundSet => 20,
        ScriptStep::UnsortRecords => 21,
        ScriptStep::EnterFindMode => 22,
        ScriptStep::ShowAllRecords => 23,
        ScriptStep::ModifyLastFind => 24,
        ScriptStep::OmitRecord => 25,
        ScriptStep::OmitMultipleRecords => 26,
        ScriptStep::ShowOmittedOnly => 27,
        ScriptStep::PerformFind => 28,
        ScriptStep::OpenHelp => 32,
        ScriptStep::OpenManageDatabase => 38,
        ScriptStep::ExitApplication => 44,
        ScriptStep::SelectAll => 50,
        ScriptStep::EnterBrowseMode => 55,
        ScriptStep::IfStart => 68,
        ScriptStep::Else => 69,
        ScriptStep::IfEnd => 70,
        ScriptStep::LoopStart => 71,
        ScriptStep::ExitLoopIf => 72,
        ScriptStep::LoopEnd => 73,
        ScriptStep::CommitRecordRequests => 75,
        ScriptStep::SetFieldData => 76,
        ScriptStep::FixWindow => 79,
        ScriptStep::NewFile => 82,
        ScriptStep::AllowUserAbort => 85,
        ScriptStep::SetErrorRecording => 86,
        ScriptStep::OpenScriptWorkspace => 88,
        ScriptStep::Comment => 89,
        ScriptStep::HaltScript => 90,
        ScriptStep::ReplaceFieldContents => 91,
        ScriptStep::Beep => 93,
        ScriptStep::SetUseSystemFormats => 94,
        ScriptStep::GoToPortalRow => 99,
        ScriptStep::CopyRecordRequest => 101,
        ScriptStep::FlushCacheToDisk => 102,
        ScriptStep::ExitScript => 103,
        ScriptStep::OpenSettings => 105,
        ScriptStep::CorrectWord => 106,
        ScriptStep::SpellingOptions => 107,
        ScriptStep::SelectDictionaries => 108,
        ScriptStep::EditUserDictionary => 109,
        ScriptStep::OpenManageValueLists => 112,
        ScriptStep::OpenSharing => 113,
        ScriptStep::OpenFileOptions => 114,
        ScriptStep::AllowFormattingBar => 115,
        ScriptStep::OpenHosts => 118,
        ScriptStep::CloseWindow => 121,
        ScriptStep::NewWindow => 122,
        ScriptStep::IfElse => 125,
        ScriptStep::ConstrainFoundSet => 126,
        ScriptStep::ExtendFoundSet => 127,
        ScriptStep::OpenFindReplace => 129,
        ScriptStep::OpenManageDataSources => 140,
        ScriptStep::SetVariable => 141,
        ScriptStep::GoToObject => 145,
        ScriptStep::OpenEditSavedFinds => 149,
        ScriptStep::OpenManageLayouts => 151,
        ScriptStep::OpenManageContainers => 156,
        ScriptStep::OpenManageThemes => 165,
        ScriptStep::RefreshObject => 167,
        ScriptStep::ClosePopover => 169,
        ScriptStep::UploadToServer => 172,
        ScriptStep::OpenMyApps => 183,
    }
}

/// Ids that more than one kind of step has used; they are read as `Unknown`.
pub open spec fn is_unsupported_id(id: u32) -> bool {
    id == 2 || id == 3 || id == 15 || id == 52 || id == 53 || id == 54 || id == 58 || id == 100 || id == 110 || id == 162 || id == 163 || id == 170 || id == 171 || id == 173 || id == 198 || id == 204
}

/// The kind of step that an id names: `Unknown` for an unsupported id or one
/// that is not in the table.
pub open spec fn step_of_id(id: u32) -> ScriptStep {
    if !is_unsupported_id(id) && exists|s: ScriptStep| step_id(s) == id {
        choose|s: ScriptStep| step_id(s) == id
    } else {
        ScriptStep::Unknown
    }
}

/// The value of a digit character.
pub open spec fn digit_value(c: char) -> nat {
    (c as u32 - '0' as u32) as nat
}

/// Whether `s` is a non-empty run of decimal digits.
pub open spec fn is_decimal(s: Seq<char>) -> bool {
    s.len() > 0 && forall|i: int| 0 <= i < s.len() ==> '0' <= #[trigger] s[i] <= '9'
}

/// The number that a run of decimal digits writes.
pub open spec fn decimal_value(s: Seq<char>) -> nat
    decreases s.len(),
{
    if s.len() == 0 {
        0
    } else {
        decimal_value(s.drop_last()) * 10 + digit_value(s.last())
    }
}

proof fn lemma_prefix_value(s: Seq<char>, i: int)
    requires
        0 <= i <= s.len(),
    ensures
        decimal_value(s.take(i)) <= decimal_value(s),
    decreases s.len() - i,
{
    if i == s.len() {
        assert(s.take(i) =~= s);
    } else {
        lemma_prefix_value(s, i + 1);
        assert(s.take(i + 1).drop_last() =~= s.take(i));
    }
}

/// Whether two kinds of step share an id: no two do.
proof fn lemma_ids_distinct(a: ScriptStep, b: ScriptStep)
    requires
        step_id(a) == step_id(b),
    ensures
        a == b,
{
}

impl ScriptStep {
    /// The kind of step with the numeric id `id`, if the table has one.
    pub fn from_repr(id: u32) -> (r: Option<ScriptStep>)
        ensures
            r matches Some(s) ==> step_id(s) == id,
            r is None ==> forall|s: ScriptStep| step_id(s) != id,
    {
        match id {
            0 => Some(ScriptStep::Unknown),
            1 => Some(ScriptStep::PerformScript),
            4 => Some(ScriptStep::GoToPreviousField),
            5 => Some(ScriptStep::GoToNextField),
            6 => Some(ScriptStep::GoToLayout),
            7 => Some(ScriptStep::NewRecordRequest),
            8 => Some(ScriptStep::DuplicateRecordRequest),
            9 => Some(ScriptStep::DeleteRecordRequest),
            10 => Some(ScriptStep::DeleteAllRecords),
            16 => Some(ScriptStep::GoToRecordRequestPage),
            17 => Some(ScriptStep::GoToField),
            19 => Some(ScriptStep::CheckRecord),
            20 => Some(ScriptStep::CheckFoundSet),
            21 => Some(ScriptStep::UnsortRecords),
            22 => Some(ScriptStep::EnterFindMode),
            23 => Some(ScriptStep::ShowAllRecords),
            24 => Some(ScriptStep::ModifyLastFind),
            25 => Some(ScriptStep::OmitRecord),
            26 => Some(ScriptStep::OmitMultipleRecords),
            27 => Some(ScriptStep::ShowOmittedOnly),
            28 => Some(ScriptStep::PerformFind),
            32 => Some(ScriptStep::OpenHelp),
            38 => Some(ScriptStep::OpenManageDatabase),
            44 => Some(ScriptStep::ExitApplication),
            50 => Some(ScriptStep::SelectAll),
            55 => Some(ScriptStep::EnterBrowseMode),
            68 => Some(ScriptStep::IfStart),
            69 => Some(ScriptStep::Else),
            70 => Some(ScriptStep::IfEnd),
            71 => Some(ScriptStep::LoopStart),
            72 => Some(ScriptStep::ExitLoopIf),
            73 => Some(ScriptStep::LoopEnd),
            75 => Some(ScriptStep::CommitRecordRequests),
            76 => Some(ScriptStep::SetFieldData),
            79 => Some(ScriptStep::FixWindow),
            82 => Some(ScriptStep::NewFile),
            85 => Some(ScriptStep::AllowUserAbort),
            86 => Some(ScriptStep::SetErrorRecording),
            88 => Some(ScriptStep::OpenScriptWorkspace),
            89 => Some(ScriptStep::Comment),
            90 => Some(ScriptStep::HaltScript),
            91 => Some(ScriptStep::ReplaceFieldContents),
            93 => Some(ScriptStep::Beep),
            94 => Some(ScriptStep::SetUseSystemFormats),
            99 => Some(ScriptStep::GoToPortalRow),
            101 => Some(ScriptStep::CopyRecordRequest),
            102 => Some(ScriptStep::FlushCacheToDisk),
            103 => Some(ScriptStep::ExitScript),
            105 => Some(ScriptStep::OpenSettings),
            106 => Some(ScriptStep::CorrectWord),
            107 => Some(ScriptStep::SpellingOptions),
            108 => Some(ScriptStep::SelectDictionaries),
            109 => Some(ScriptStep::EditUserDictionary),
            112 => Some(ScriptStep::OpenManageValueLists),
            113 => Some(ScriptStep::OpenSharing),
            114 => Some(ScriptStep::OpenFileOptions),
            115 => Some(ScriptStep::AllowFormattingBar),
            118 => Some(ScriptStep::OpenHosts),
            121 => Some(ScriptStep::CloseWindow),
            122 => Some(ScriptStep::NewWindow),
            125 => Some(ScriptStep::IfElse),
            126 => Some(ScriptStep::ConstrainFoundSet),
            127 => Some(ScriptStep::ExtendFoundSet),
            129 => Some(ScriptStep::OpenFindReplace),
            140 => Some(ScriptStep::OpenManageDataSources),
            141 => Some(ScriptStep::SetVariable),
            145 => Some(ScriptStep::GoToObject),
            149 => Some(ScriptStep::OpenEditSavedFinds),
            151 => Some(ScriptStep::OpenManageLayouts),
            156 => Some(ScriptStep::OpenManageContainers),
            165 => Some(ScriptStep::OpenManageThemes),
            167 => Some(ScriptStep::RefreshObject),
            169 => Some(ScriptStep::ClosePopover),
            172 => Some(ScriptStep::UploadToServer),
            183 => Some(ScriptStep::OpenMyApps),
            _ => None,
        }
    }
}

/// The number written by `id`, a run of decimal digits.
fn decimal(id: &str) -> (r: u32)
    requires
        is_decimal(id@),
        decimal_value(id@) <= u32::MAX,
    ensures
        r == decimal_value(id@),
{
    let n = id.unicode_len();
    let mut value: u32 = 0;
    let mut i: usize = 0;
    while i < n
        invariant
            n == id@.len(),
            i <= n,
            is_decimal(id@),
            decimal_value(id@) <= u32::MAX,
            value == decimal_value(id@.take(i as int)),
        decreases n - i,
    {
        let c = id.get_char(i);
        proof {
            lemma_prefix_value(id@, i + 1);
            assert(id@.take(i + 1).drop_last() =~= id@.take(i as int));
            assert(id@.take(i + 1).last() == c);
            assert('0' <= id@[i as int] <= '9');
        }
        value = value * 10 + (c as u32 - '0' as u32);
        i = i + 1;
    }
    assert(id@.take(n as int) =~= id@);
    value
}

/// The kind of step whose numeric id is written, in decimal, as `id`.
pub fn id_to_script_step(id: &str) -> (r: ScriptStep)
    requires
        is_decimal(id@),
        decimal_value(id@) <= u32::MAX,
    ensures
        r == step_of_id(decimal_value(id@) as u32),
{
    let n = decimal(id);
    if n == 2 || n == 3 || n == 15 || n == 52 || n == 53 || n == 54 || n == 58 || n == 100 || n == 110 || n == 162 || n == 163 || n == 170 || n == 171 || n == 173 || n == 198 || n == 204 {
        return ScriptStep::Unknown;
    }
    match ScriptStep::from_repr(n) {
        Some(s) => {
            proof {
                let c = choose|c: ScriptStep| step_id(c) == n;
                lemma_ids_distinct(c, s);
            }
            s
        },
        None => ScriptStep::Unknown,
    }
}

} // verus!
