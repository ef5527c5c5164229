//! Builds executable query text from a logical command: free text, a stored
//! procedure with positional placeholders, or a direct table select; also the
//! result-shaping helpers of the command executor that need no connection.
use vstd::prelude::*;

use crate::textfmt::{dec_digits, joined, join_strings, u64_to_string, views_of};

verus! {

/// How the command's target text is interpreted.
#[derive(Debug, Clone, Copy, PartialEq, Eq, Structural)]
pub enum CommandType {
    Text,
    StoreProcedure,
    TableDirect,
}

/// The query prefix of each command kind.
pub open spec fn prefix_text(t: CommandType) -> Seq<char> {
    match t {
        CommandType::Text => ""@,
        CommandType::StoreProcedure => "EXEC "@,
        CommandType::TableDirect => "SELECT * FROM "@,
    }
}

impl CommandType {
    /// The literal prefix placed before the command's target text.
    pub fn prefix(&self) -> (r: &'static str)
        ensures
            r@ == prefix_text(*self),
    {
        match self {
            CommandType::Text => "",
            CommandType::StoreProcedure => "EXEC ",
            CommandType::TableDirect => "SELECT * FROM ",
        }
    }
}

/// A positional parameter bound to a command: plain values only, in the
/// order the placeholders number them.
#[derive(Debug, Clone)]
pub enum SqlParam {
    Int(i64),
    Str(String),
    Bool(bool),
    Null,
}

/// The positional placeholder with the given 1-based number.
pub open spec fn placeholder(i: nat) -> Seq<char> {
    "@P"@ + dec_digits(i)
}

/// The first `k` positional placeholders, in order.
pub open spec fn placeholders(k: nat) -> Seq<Seq<char>> {
    Seq::new(k, |i: int| placeholder((i + 1) as nat))
}

/// The comma-joined placeholder list for `k` parameters.
pub open spec fn placeholder_list(k: nat) -> Seq<char> {
    joined(placeholders(k), ", "@)
}

/// The full query text for a command with `k` positional parameters.
pub open spec fn built_query(t: CommandType, txt: Seq<char>, k: nat) -> Seq<char> {
    match t {
        CommandType::Text => txt,
        CommandType::StoreProcedure => if k == 0 {
            prefix_text(t) + txt
        } else {
            prefix_text(t) + txt + " "@ + placeholder_list(k)
        },
        CommandType::TableDirect => prefix_text(t) + txt,
    }
}

/// Renders the placeholder with the given 1-based number.
fn placeholder_string(i: usize) -> (r: String)
    ensures
        r@ == placeholder(i as nat),
{
    let mut r = "@P".to_owned();
    let digits = u64_to_string(i as u64);
    r.append(digits.as_str());
    proof {
        assert(r@ =~= placeholder(i as nat));
    }
    r
}

/// Renders the comma-joined placeholder list for `k` parameters.
fn placeholder_list_string(k: usize) -> (r: String)
    ensures
        r@ == placeholder_list(k as nat),
{
    let mut phs: Vec<String> = Vec::new();
    let mut i: usize = 0;
    while i < k
        invariant
            i <= k,
            phs@.len() == i,
            forall|j: int| 0 <= j < i ==> phs@[j]@ == placeholder((j + 1) as nat),
        decreases k - i,
    {
        phs.push(placeholder_string(i + 1));
        i = i + 1;
    }
    let r = join_strings(&phs, ", ");
    proof {
        assert(views_of(phs@) =~= placeholders(k as nat));
    }
    r
}

/// An immutable command description: how to interpret the target text, the
/// target text itself, and the positional parameters in binding order.
pub struct Command {
    pub kind: CommandType,
    pub text: String,
    pub params: Vec<SqlParam>,
}

/// A stored-procedure command with `k` parameters lists exactly `k`
/// placeholders after the procedure name, the placeholder in position `i`
/// (0-based) reading `@P{i + 1}`; the parameter values play no part in the
/// text. With no parameters the placeholder list is absent.
pub proof fn lemma_stored_proc_placeholders(txt: Seq<char>, k: nat)
    ensures
        placeholders(k).len() == k,
        forall|i: int| 0 <= i < k ==> #[trigger] placeholders(k)[i] == "@P"@ + dec_digits((i + 1) as nat),
        k > 0 ==> built_query(CommandType::StoreProcedure, txt, k) == prefix_text(
            CommandType::StoreProcedure,
        ) + txt + " "@ + joined(placeholders(k), ", "@),
        k == 0 ==> built_query(CommandType::StoreProcedure, txt, k) == prefix_text(
            CommandType::StoreProcedure,
        ) + txt,
{
}

/// The struct that groups the command executor's operations.
pub struct SqlRepo;

impl SqlRepo {
    /// Builds the query text: free text unchanged, a stored procedure with
    /// one numbered placeholder per parameter, or a select over a table.
    pub fn build_query_with_params(cmd_txt: &str, cmd_type: CommandType, params: &Vec<SqlParam>) -> (q:
        String)
        ensures
            q@ == built_query(cmd_type, cmd_txt@, params@.len()),
    {
        match cmd_type {
            CommandType::Text => cmd_txt.to_owned(),
            CommandType::StoreProcedure => {
                let mut q = cmd_type.prefix().to_owned();
                q.append(cmd_txt);
                if params.len() > 0 {
                    q.append(" ");
                    let list = placeholder_list_string(params.len());
                    q.append(list.as_str());
                }
                q
            },
            CommandType::TableDirect => {
                let mut q = cmd_type.prefix().to_owned();
                q.append(cmd_txt);
                q
            },
        }
    }

    /// One parenthesized placeholder group; numbering restarts at 1.
    pub open spec fn row_group(c: nat) -> Seq<char> {
        "("@ + placeholder_list(c) + ")"@
    }

    /// The multi-row insert statement for a table, a column list, and one
    /// placeholder group per row.
    pub open spec fn bulk_insert_text(
        table: Seq<char>,
        columns: Seq<Seq<char>>,
        row_widths: Seq<nat>,
    ) -> Seq<char> {
        "INSERT INTO "@ + table + " ("@ + joined(columns, ", "@) + ") VALUES "@ + joined(
            row_widths.map_values(|c: nat| Self::row_group(c)),
            ", "@,
        )
    }

    /// Builds the single multi-row insert statement: one parenthesized
    /// placeholder group per entity, placeholders restarting at 1 per group.
    pub fn build_bulk_insert_query(
        table: &str,
        columns: &Vec<String>,
        entities: &Vec<Vec<SqlParam>>,
    ) -> (q: String)
        ensures
            q@ == Self::bulk_insert_text(
                table@,
                views_of(columns@),
                entities@.map_values(|e: Vec<SqlParam>| e@.len()),
            ),
    {
        let ghost widths = entities@.map_values(|e: Vec<SqlParam>| e@.len());
        let mut values: Vec<String> = Vec::new();
        let mut i: usize = 0;
        while i < entities.len()
            invariant
                i <= entities@.len(),
                values@.len() == i,
                widths == entities@.map_values(|e: Vec<SqlParam>| e@.len()),
                forall|j: int| 0 <= j < i ==> values@[j]@ == Self::row_group(widths[j]),
            decreases entities@.len() - i,
        {
            let mut group = "(".to_owned();
            let list = placeholder_list_string(entities[i].len());
            group.append(list.as_str());
            group.append(")");
            proof {
                assert(group@ =~= Self::row_group(widths[i as int]));
            }
            values.push(group);
            i = i + 1;
        }
        let mut q = "INSERT INTO ".to_owned();
        q.append(table);
        q.append(" (");
        let cols = join_strings(columns, ", ");
        q.append(cols.as_str());
        q.append(") VALUES ");
        let vals = join_strings(&values, ", ");
        q.append(vals.as_str());
        proof {
            assert(views_of(values@) =~= widths.map_values(|c: nat| Self::row_group(c)));
            assert(q@ =~= Self::bulk_insert_text(table@, views_of(columns@), widths));
        }
        q
    }

    /// Applies the row mapping to every row, keeping result order.
    pub fn map_rows<R, T, F: Fn(&R) -> T>(rows: &Vec<R>, map_row: F) -> (out: Vec<T>)
        requires
            forall|i: int| 0 <= i < rows@.len() ==> call_requires(map_row, (&rows@[i],)),
        ensures
            out@.len() == rows@.len(),
            forall|i: int|
                0 <= i < rows@.len() ==> call_ensures(map_row, (&rows@[i],), #[trigger] out@[i]),
    {
        let mut out: Vec<T> = Vec::new();
        let mut j: usize = 0;
        while j < rows.len()
            invariant
                j <= rows@.len(),
                out@.len() == j,
                forall|i: int| 0 <= i < rows@.len() ==> call_requires(map_row, (&rows@[i],)),
                forall|i: int|
                    0 <= i < j ==> call_ensures(map_row, (&rows@[i],), #[trigger] out@[i]),
            decreases rows@.len() - j,
        {
            out.push(map_row(&rows[j]));
            j = j + 1;
        }
        out
    }

    /// The single-row result: the last mapped row, `None` when there is none.
    pub fn last_row<T>(rows: Vec<T>) -> (r: Option<T>)
        ensures
            rows@.len() == 0 ==> r is None,
            rows@.len() > 0 ==> r == Some(rows@.last()),
    {
        let mut rows = rows;
        rows.pop()
    }
}

/// Whether a character counts as whitespace in command text: the Unicode
/// characters with the White_Space property, the set `str::trim` removes.
pub open spec fn is_space(c: char) -> bool {
    let n = c as int;
    n == 0x20 || (0x09 <= n && n <= 0x0D) || n == 0x85 || n == 0xA0 || n == 0x1680 || (0x2000 <= n
        && n <= 0x200A) || n == 0x2028 || n == 0x2029 || n == 0x202F || n == 0x205F || n == 0x3000
}

/// Whether the command text holds nothing but whitespace.
pub open spec fn blank(s: Seq<char>) -> bool {
    forall|i: int| 0 <= i < s.len() ==> is_space(#[trigger] s[i])
}

/// Whether the command text is blank, in which case a query short-circuits
/// to an empty result without executing.
pub fn is_blank(s: &str) -> (r: bool)
    ensures
        r == blank(s@),
{
    let n = s.unicode_len();
    let mut i: usize = 0;
    while i < n
        invariant
            n == s@.len(),
            i <= n,
            forall|j: int| 0 <= j < i ==> is_space(#[trigger] s@[j]),
        decreases n - i,
    {
        let c = s.get_char(i) as u32;
        if !(c == 0x20 || (0x09 <= c && c <= 0x0D) || c == 0x85 || c == 0xA0 || c == 0x1680 || (
        0x2000 <= c && c <= 0x200A) || c == 0x2028 || c == 0x2029 || c == 0x202F || c == 0x205F
            || c == 0x3000) {
            return false;
        }
        i = i + 1;
    }
    true
}

} // verus!
