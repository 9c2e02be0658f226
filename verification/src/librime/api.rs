//! The function table that librime hands out: its size tells which functions it
//! has.
use crate::text::join2;
use vstd::prelude::*;

verus! {

/// The functions of librime that the server uses, in the order of the table.
#[derive(Clone, Copy, Debug, PartialEq, Eq, Structural)]
pub enum RimeFunction {
    Setup,
    Initialize,
    Finalize,
    DeployerInitialize,
    Deploy,
    CreateSession,
    DestroySession,
    ProcessKey,
    CommitComposition,
    ClearComposition,
    GetCommit,
    FreeCommit,
    GetContext,
    FreeContext,
    GetStatus,
    FreeStatus,
    GetOption,
    SetOption,
    SelectCandidateOnCurrentPage,
    ChangePage,
}

/// A function's name.
pub open spec fn name_of(function: RimeFunction) -> Seq<char> {
    match function {
        RimeFunction::Setup => "setup"@,
        RimeFunction::Initialize => "initialize"@,
        RimeFunction::Finalize => "finalize"@,
        RimeFunction::DeployerInitialize => "deployer_initialize"@,
        RimeFunction::Deploy => "deploy"@,
        RimeFunction::CreateSession => "create_session"@,
        RimeFunction::DestroySession => "destroy_session"@,
        RimeFunction::ProcessKey => "process_key"@,
        RimeFunction::CommitComposition => "commit_composition"@,
        RimeFunction::ClearComposition => "clear_composition"@,
        RimeFunction::GetCommit => "get_commit"@,
        RimeFunction::FreeCommit => "free_commit"@,
        RimeFunction::GetContext => "get_context"@,
        RimeFunction::FreeContext => "free_context"@,
        RimeFunction::GetStatus => "get_status"@,
        RimeFunction::FreeStatus => "free_status"@,
        RimeFunction::GetOption => "get_option"@,
        RimeFunction::SetOption => "set_option"@,
        RimeFunction::SelectCandidateOnCurrentPage => "select_candidate_on_current_page"@,
        RimeFunction::ChangePage => "change_page"@,
    }
}

impl RimeFunction {
    /// The function's name.
    pub fn name(self) -> (r: &'static str)
        ensures
            r@ == name_of(self),
    {
        match self {
            RimeFunction::Setup => "setup",
            RimeFunction::Initialize => "initialize",
            RimeFunction::Finalize => "finalize",
            RimeFunction::DeployerInitialize => "deployer_initialize",
            RimeFunction::Deploy => "deploy",
            RimeFunction::CreateSession => "create_session",
            RimeFunction::DestroySession => "destroy_session",
            RimeFunction::ProcessKey => "process_key",
            RimeFunction::CommitComposition => "commit_composition",
            RimeFunction::ClearComposition => "clear_composition",
            RimeFunction::GetCommit => "get_commit",
            RimeFunction::FreeCommit => "free_commit",
            RimeFunction::GetContext => "get_context",
            RimeFunction::FreeContext => "free_context",
            RimeFunction::GetStatus => "get_status",
            RimeFunction::FreeStatus => "free_status",
            RimeFunction::GetOption => "get_option",
            RimeFunction::SetOption => "set_option",
            RimeFunction::SelectCandidateOnCurrentPage => "select_candidate_on_current_page",
            RimeFunction::ChangePage => "change_page",
        }
    }
}

/// A place in the table: where it ends, in bytes from the start, and whether it
/// holds a function. Nothing is read of a place that ends behind the table.
#[derive(Clone, Copy, Debug, PartialEq, Eq, Structural)]
pub struct TableEntry {
    pub function: RimeFunction,
    pub end: usize,
    pub set: bool,
}

/// The table: the size that it gives for itself, and its places.
#[derive(Debug, PartialEq, Eq)]
pub struct RimeTable {
    pub data_size: i32,
    pub entries: Vec<TableEntry>,
}

/// Bytes of the field that holds the table's size; the size does not count them.
pub const HEADER_BYTES: usize = 4;

/// Number of bytes of a table; none where its size is negative.
pub open spec fn bytes_of(data_size: i32) -> Option<int> {
    if data_size < 0 {
        None
    } else {
        Some(data_size + HEADER_BYTES)
    }
}

/// Number of bytes of a table.
pub fn table_bytes(data_size: i32) -> (r: Result<usize, String>)
    ensures
        match r {
            Ok(bytes) => bytes_of(data_size) == Some(bytes as int),
            Err(error) => bytes_of(data_size) is None && error@ == "invalid librime API data_size"@,
        },
{
    if data_size < 0 {
        return Err("invalid librime API data_size".to_owned());
    }
    Ok(data_size as usize + HEADER_BYTES)
}

/// The size that a structure gives for itself.
pub fn struct_data_size(size: usize) -> (r: i32)
    requires
        HEADER_BYTES <= size <= i32::MAX + HEADER_BYTES,
    ensures
        r == size - HEADER_BYTES,
        bytes_of(r) == Some(size as int),
{
    (size - HEADER_BYTES) as i32
}

/// The functions that a table of a number of bytes has: those whose place lies in
/// it and is set.
pub open spec fn available(entries: Seq<TableEntry>, bytes: int) -> Seq<RimeFunction>
    decreases entries.len(),
{
    if entries.len() == 0 {
        Seq::empty()
    } else {
        let before = available(entries.drop_last(), bytes);
        let last = entries.last();
        if last.end <= bytes && last.set {
            before.push(last.function)
        } else {
            before
        }
    }
}

/// The functions without which the server does not start, or without which nothing
/// can be deployed.
pub open spec fn required(deploy: bool) -> Seq<RimeFunction> {
    if deploy {
        seq![
            RimeFunction::Setup,
            RimeFunction::Finalize,
            RimeFunction::DeployerInitialize,
            RimeFunction::Deploy,
        ]
    } else {
        seq![
            RimeFunction::Setup,
            RimeFunction::Finalize,
            RimeFunction::Initialize,
            RimeFunction::CreateSession,
            RimeFunction::DestroySession,
            RimeFunction::ProcessKey,
            RimeFunction::CommitComposition,
            RimeFunction::ClearComposition,
            RimeFunction::GetCommit,
            RimeFunction::FreeCommit,
            RimeFunction::GetContext,
            RimeFunction::FreeContext,
            RimeFunction::GetStatus,
            RimeFunction::FreeStatus,
            RimeFunction::GetOption,
            RimeFunction::SetOption,
        ]
    }
}

/// The first of some functions that others lack.
pub open spec fn first_missing(wanted: Seq<RimeFunction>, functions: Seq<RimeFunction>) -> Option<
    RimeFunction,
>
    decreases wanted.len(),
{
    if wanted.len() == 0 {
        None
    } else if !functions.contains(wanted[0]) {
        Some(wanted[0])
    } else {
        first_missing(wanted.drop_first(), functions)
    }
}

/// The outcome of taking over a table.
pub open spec fn loaded(table: Option<RimeTable>, deploy: bool) -> Result<
    Seq<RimeFunction>,
    Seq<char>,
> {
    match table {
        None => Err("librime returned a null API table"@),
        Some(table) => match bytes_of(table.data_size) {
            None => Err("invalid librime API data_size"@),
            Some(bytes) => {
                let functions = available(table.entries@, bytes);
                match first_missing(required(deploy), functions) {
                    Some(function) => Err(
                        "librime API function is unavailable or outside data_size: "@ + name_of(
                            function,
                        ),
                    ),
                    None => Ok(functions),
                }
            },
        },
    }
}

/// The functions of librime that can be called.
#[derive(Debug, PartialEq, Eq)]
pub struct RimeLibraryApi {
    pub functions: Vec<RimeFunction>,
}

impl View for RimeLibraryApi {
    type V = Seq<RimeFunction>;

    open spec fn view(&self) -> Seq<RimeFunction> {
        self.functions@
    }
}

/// The functions without which the server does not start, or without which nothing
/// can be deployed.
fn required_functions(deploy: bool) -> (r: Vec<RimeFunction>)
    ensures
        r@ == required(deploy),
{
    let mut list: Vec<RimeFunction> = Vec::new();
    list.push(RimeFunction::Setup);
    list.push(RimeFunction::Finalize);
    if deploy {
        list.push(RimeFunction::DeployerInitialize);
        list.push(RimeFunction::Deploy);
    } else {
        list.push(RimeFunction::Initialize);
        list.push(RimeFunction::CreateSession);
        list.push(RimeFunction::DestroySession);
        list.push(RimeFunction::ProcessKey);
        list.push(RimeFunction::CommitComposition);
        list.push(RimeFunction::ClearComposition);
        list.push(RimeFunction::GetCommit);
        list.push(RimeFunction::FreeCommit);
        list.push(RimeFunction::GetContext);
        list.push(RimeFunction::FreeContext);
        list.push(RimeFunction::GetStatus);
        list.push(RimeFunction::FreeStatus);
        list.push(RimeFunction::GetOption);
        list.push(RimeFunction::SetOption);
    }
    assert(list@ =~= required(deploy));
    list
}

impl RimeLibraryApi {
    /// Takes over a table. Places that end behind it are treated as empty, since an
    /// older librime does not have them; selecting a candidate and changing the
    /// page may be missing.
    pub fn load(table: Option<RimeTable>, deploy: bool) -> (r: Result<Self, String>)
        ensures
            match r {
                Ok(api) => loaded(table, deploy) == Ok::<Seq<RimeFunction>, Seq<char>>(api@),
                Err(error) => loaded(table, deploy) == Err::<Seq<RimeFunction>, Seq<char>>(error@),
            },
    {
        let source: RimeTable = match table {
            Some(table) => table,
            None => {
                return Err("librime returned a null API table".to_owned());
            },
        };
        let bytes: usize = table_bytes(source.data_size)?;
        let ghost entries = source.entries@;
        let mut functions: Vec<RimeFunction> = Vec::new();
        let mut i: usize = 0;
        assert(entries.take(0) =~= Seq::<TableEntry>::empty());
        while i < source.entries.len()
            invariant
                i <= source.entries.len(),
                entries == source.entries@,
                functions@ == available(entries.take(i as int), bytes as int),
            decreases source.entries.len() - i,
        {
            assert(entries.take(i + 1).drop_last() =~= entries.take(i as int));
            if source.entries[i].end <= bytes && source.entries[i].set {
                functions.push(source.entries[i].function);
            }
            i += 1;
        }
        assert(entries.take(entries.len() as int) =~= entries);
        let api = RimeLibraryApi { functions };
        let ghost outcome = loaded(table, deploy);
        let wanted: Vec<RimeFunction> = required_functions(deploy);
        let mut k: usize = 0;
        assert(wanted@.skip(0) =~= wanted@);
        while k < wanted.len()
            invariant
                k <= wanted.len(),
                outcome == loaded(table, deploy),
                outcome == (match first_missing(wanted@, api@) {
                    Some(function) => Err::<Seq<RimeFunction>, Seq<char>>(
                        "librime API function is unavailable or outside data_size: "@ + name_of(
                            function,
                        ),
                    ),
                    None => Ok::<Seq<RimeFunction>, Seq<char>>(api@),
                }),
                first_missing(wanted@, api@) == first_missing(wanted@.skip(k as int), api@),
            decreases wanted.len() - k,
        {
            assert(wanted@.skip(k as int)[0] == wanted@[k as int]);
            assert(wanted@.skip(k as int).drop_first() =~= wanted@.skip(k + 1));
            if !api.has(wanted[k]) {
                let text: String = join2(
                    "librime API function is unavailable or outside data_size: ",
                    wanted[k].name(),
                );
                return Err(text);
            }
            k += 1;
        }
        Ok(api)
    }

    /// Whether a function can be called.
    pub fn has(&self, function: RimeFunction) -> (r: bool)
        ensures
            r == self@.contains(function),
    {
        let mut i: usize = 0;
        while i < self.functions.len()
            invariant
                i <= self.functions.len(),
                forall|k: int| 0 <= k < i ==> self.functions@[k] != function,
            decreases self.functions.len() - i,
        {
            if self.functions[i] == function {
                assert(self.functions@[i as int] == function);
                return true;
            }
            i += 1;
        }
        false
    }
}

/// A function that is there was found in a place that lies in the table.
pub proof fn law_available_functions_lie_in_the_table(
    entries: Seq<TableEntry>,
    bytes: int,
    function: RimeFunction,
)
    ensures
        available(entries, bytes).contains(function) <==> exists|i: int|
            0 <= i < entries.len() && (#[trigger] entries[i]).function == function && entries[i].end
                <= bytes && entries[i].set,
    decreases entries.len(),
{
    if entries.len() > 0 {
        let rest = entries.drop_last();
        law_available_functions_lie_in_the_table(rest, bytes, function);
        let before = available(rest, bytes);
        let all = available(entries, bytes);
        if available(entries, bytes).contains(function) {
            let k = choose|k: int| 0 <= k < all.len() && all[k] == function;
            if k < before.len() {
                assert(before[k] == function);
                let i = choose|i: int|
                    0 <= i < rest.len() && (#[trigger] rest[i]).function == function && rest[i].end
                        <= bytes && rest[i].set;
                assert(entries[i] == rest[i]);
            } else {
                assert(entries[entries.len() - 1].function == function);
            }
        }
        if exists|i: int|
            0 <= i < entries.len() && (#[trigger] entries[i]).function == function && entries[i].end
                <= bytes && entries[i].set {
            let i = choose|i: int|
                0 <= i < entries.len() && (#[trigger] entries[i]).function == function
                    && entries[i].end <= bytes && entries[i].set;
            if i < rest.len() {
                assert(rest[i] == entries[i]);
                assert(before.contains(function));
                let k = choose|k: int| 0 <= k < before.len() && before[k] == function;
                assert(all[k] == function);
            } else {
                assert(all[all.len() - 1] == function);
            }
        }
    }
}

/// A larger table has all functions that a smaller one of the same places has: a
/// later librime is accepted where an earlier one is.
pub proof fn law_larger_table_keeps_functions(
    entries: Seq<TableEntry>,
    bytes: int,
    more: int,
    function: RimeFunction,
)
    requires
        bytes <= more,
        available(entries, bytes).contains(function),
    ensures
        available(entries, more).contains(function),
{
    law_available_functions_lie_in_the_table(entries, bytes, function);
    law_available_functions_lie_in_the_table(entries, more, function);
}

/// The first function that is lacking is one that is wanted and not there, and all that are
/// wanted before it are there; none is lacking exactly where all that are wanted are there.
pub proof fn law_first_lacking_function_is_named(
    wanted: Seq<RimeFunction>,
    functions: Seq<RimeFunction>,
)
    ensures
        first_missing(wanted, functions) is None <==> forall|i: int|
            0 <= i < wanted.len() ==> functions.contains(#[trigger] wanted[i]),
        first_missing(wanted, functions) matches Some(f) ==> !functions.contains(f) && exists|i: int|
            0 <= i < wanted.len() && #[trigger] wanted[i] == f && forall|j: int|
                0 <= j < i ==> functions.contains(#[trigger] wanted[j]),
    decreases wanted.len(),
{
    if wanted.len() > 0 {
        let rest = wanted.drop_first();
        law_first_lacking_function_is_named(rest, functions);
        assert forall|i: int| 0 <= i < rest.len() implies rest[i] == #[trigger] wanted[i + 1] by {}
        if !functions.contains(wanted[0]) {
            assert(wanted[0] == wanted[0]);
        } else {
            if first_missing(rest, functions) is None {
                assert forall|i: int| 0 <= i < wanted.len() implies functions.contains(
                    #[trigger] wanted[i],
                ) by {
                    if i > 0 {
                        assert(functions.contains(rest[i - 1]));
                    }
                }
            } else {
                let f = first_missing(rest, functions)->0;
                let i = choose|i: int|
                    0 <= i < rest.len() && #[trigger] rest[i] == f && forall|j: int|
                        0 <= j < i ==> functions.contains(#[trigger] rest[j]);
                assert(wanted[i + 1] == f);
                assert forall|j: int| 0 <= j < i + 1 implies functions.contains(
                    #[trigger] wanted[j],
                ) by {
                    if j > 0 {
                        assert(functions.contains(rest[j - 1]));
                    }
                }
            }
        }
    }
}

/// A table is taken over exactly where there is one whose size is a number, and where all
/// functions that are wanted lie in it and are set; then it offers just those that do.
pub proof fn law_whole_tables_are_taken_over(table: RimeTable, deploy: bool)
    ensures
        loaded(None, deploy) is Err,
        table.data_size < 0 ==> loaded(Some(table), deploy) is Err,
        table.data_size >= 0 ==> (loaded(Some(table), deploy) is Ok <==> forall|i: int|
            0 <= i < required(deploy).len() ==> available(
                table.entries@,
                table.data_size + 4,
            ).contains(#[trigger] required(deploy)[i])),
        loaded(Some(table), deploy) is Ok ==> loaded(Some(table), deploy)->Ok_0 == available(
            table.entries@,
            table.data_size + 4,
        ),
{
    law_first_lacking_function_is_named(
        required(deploy),
        available(table.entries@, table.data_size + 4),
    );
}

/// Whatever it is taken over for, a table has what begins and ends the library; for typing it
/// has all that sessions, keys, compositions and modes take, and what is read is also freed.
/// Choosing by click and turning pages may be missing.
pub proof fn law_wanted_functions_serve_the_purpose(deploy: bool)
    ensures
        required(deploy).contains(RimeFunction::Setup),
        required(deploy).contains(RimeFunction::Finalize),
        required(deploy).contains(RimeFunction::Deploy) <==> deploy,
        required(deploy).contains(RimeFunction::ProcessKey) <==> !deploy,
        required(deploy).contains(RimeFunction::CreateSession) <==> required(deploy).contains(
            RimeFunction::DestroySession,
        ),
        required(deploy).contains(RimeFunction::GetCommit) <==> required(deploy).contains(
            RimeFunction::FreeCommit,
        ),
        required(deploy).contains(RimeFunction::GetContext) <==> required(deploy).contains(
            RimeFunction::FreeContext,
        ),
        required(deploy).contains(RimeFunction::GetStatus) <==> required(deploy).contains(
            RimeFunction::FreeStatus,
        ),
        required(deploy).contains(RimeFunction::GetOption) <==> required(deploy).contains(
            RimeFunction::SetOption,
        ),
        required(deploy).contains(RimeFunction::CommitComposition) <==> required(deploy).contains(
            RimeFunction::ClearComposition,
        ),
        !required(deploy).contains(RimeFunction::SelectCandidateOnCurrentPage),
        !required(deploy).contains(RimeFunction::ChangePage),
{
    let r = required(deploy);
    assert(r[0] == RimeFunction::Setup && r[1] == RimeFunction::Finalize);
    if deploy {
        assert(r[3] == RimeFunction::Deploy);
    } else {
        assert(r[3] == RimeFunction::CreateSession && r[4] == RimeFunction::DestroySession && r[5]
            == RimeFunction::ProcessKey && r[6] == RimeFunction::CommitComposition && r[7]
            == RimeFunction::ClearComposition && r[8] == RimeFunction::GetCommit && r[9]
            == RimeFunction::FreeCommit && r[10] == RimeFunction::GetContext && r[11]
            == RimeFunction::FreeContext && r[12] == RimeFunction::GetStatus && r[13]
            == RimeFunction::FreeStatus && r[14] == RimeFunction::GetOption && r[15]
            == RimeFunction::SetOption);
    }
}

} // verus!
