//! Hyprland workspace driver: a line-oriented event socket feeds tagged
//! records (`tag>>payload`), and an on-demand command socket answers a
//! full workspace query used to seed the map and to resynchronize after
//! a malformed create/destroy line. The workspace map is ordered by the
//! compositor-assigned numeric id; on an id collision the original entry
//! is kept (an explicit inconsistency-tolerant policy, not last-write-wins).

use vstd::prelude::*;

verus! {

use vstd::string::StrSliceExecFns;
use crate::assoc::{
    entries_have,
    entries_unique,
    map_of,
    lemma_map_of_contains,
    lemma_map_of_index,
    lemma_map_of_remove,
    lemma_map_of_seq_insert,
};
use crate::text::{find_char, starts_with, str_starts_with};

// ---------------------------------------------------------------------------
// Decimal integer parsing, as the standard signed-integer grammar:
// an optional sign, then one or more digits, rejected on any other
// character and on overflow.
// ---------------------------------------------------------------------------
/// `c` is a decimal digit.
pub open spec fn is_digit(c: char) -> bool {
    '0' as u32 <= c as u32 && c as u32 <= '9' as u32
}

/// The numeric value of a digit.
pub open spec fn digit_val(c: char) -> int {
    c as u32 - '0' as u32
}

/// Every character is a decimal digit.
pub open spec fn all_digits(s: Seq<char>) -> bool {
    forall|i: int| 0 <= i < s.len() ==> is_digit(#[trigger] s[i])
}

/// The value of a digit string, most significant digit first.
pub open spec fn digits_val(s: Seq<char>) -> int
    decreases s.len(),
{
    if s.len() == 0 {
        0
    } else {
        digits_val(s.drop_last()) * 10 + digit_val(s.last())
    }
}

pub proof fn lemma_digits_val_nonneg(s: Seq<char>)
    requires
        all_digits(s),
    ensures
        digits_val(s) >= 0,
    decreases s.len(),
{
    if s.len() > 0 {
        assert(forall|i: int| 0 <= i < s.drop_last().len() ==> s.drop_last()[i] == s[i]);
        lemma_digits_val_nonneg(s.drop_last());
        assert(is_digit(s[s.len() - 1]));
    }
}

/// Appending one digit multiplies by ten and adds it.
pub proof fn lemma_digits_val_step(s: Seq<char>, k: int)
    requires
        0 <= k < s.len(),
    ensures
        digits_val(s.subrange(0, k + 1)) == digits_val(s.subrange(0, k)) * 10 + digit_val(s[k]),
{
    assert(s.subrange(0, k + 1).drop_last() =~= s.subrange(0, k));
    assert(s.subrange(0, k + 1).last() == s[k]);
}

/// A digit string is worth at least any of its prefixes.
pub proof fn lemma_digits_val_monotone(s: Seq<char>, k: int)
    requires
        all_digits(s),
        0 <= k <= s.len(),
    ensures
        digits_val(s.subrange(0, k)) >= 0,
        digits_val(s) >= digits_val(s.subrange(0, k)),
    decreases s.len() - k,
{
    let pre = s.subrange(0, k);
    assert(all_digits(pre)) by {
        assert(forall|i: int| 0 <= i < pre.len() ==> pre[i] == s[i]);
    }
    lemma_digits_val_nonneg(pre);
    if k == s.len() {
        assert(pre =~= s);
    } else {
        lemma_digits_val_step(s, k);
        assert(is_digit(s[k]));
        lemma_digits_val_monotone(s, k + 1);
    }
}

/// What parsing `s` as a signed 64-bit decimal integer yields: `None` on
/// an empty digit part, on any non-digit character, and on overflow.
pub open spec fn spec_parse_i64(s: Seq<char>) -> Option<i64> {
    let signed = s.len() > 0 && (s[0] == '+' || s[0] == '-');
    let neg = s.len() > 0 && s[0] == '-';
    let ds = if signed {
        s.subrange(1, s.len() as int)
    } else {
        s
    };
    if ds.len() == 0 || !all_digits(ds) {
        None
    } else {
        let mag = digits_val(ds);
        if !neg && mag <= i64::MAX as int {
            Some(mag as i64)
        } else if neg && mag <= 0x8000000000000000 {
            Some((-mag) as i64)
        } else {
            None
        }
    }
}

/// Parse a signed 64-bit decimal integer.
pub fn parse_i64(s: &str) -> (r: Option<i64>)
    ensures
        r == spec_parse_i64(s@),
{
    let len = s.unicode_len();
    let mut start: usize = 0;
    let mut neg = false;
    if len > 0 {
        let c0 = s.get_char(0);
        if c0 == '+' || c0 == '-' {
            neg = c0 == '-';
            start = 1;
        }
    }
    let ghost ds = s@.subrange(start as int, s@.len() as int);
    proof {
        assert(s@.subrange(0, s@.len() as int) =~= s@);
    }
    if start >= len {
        return None;
    }
    let mut i: usize = start;
    let mut mag: u128 = 0;
    while i < len
        invariant
            len == s@.len(),
            start <= i <= len,
            start < len,
            start <= 1,
            (start == 1) == (s@.len() > 0 && (s@[0] == '+' || s@[0] == '-')),
            neg == (s@.len() > 0 && s@[0] == '-'),
            ds == s@.subrange(start as int, s@.len() as int),
            start == 0 ==> ds == s@,
            all_digits(ds.subrange(0, i - start)),
            mag == digits_val(ds.subrange(0, i - start)),
            mag <= 0x8000000000000000u128,
        decreases len - i,
    {
        let c = s.get_char(i);
        let u = c as u32;
        proof {
            assert(ds[(i - start) as int] == s@[i as int]);
        }
        if u < 48 || u > 57 {
            proof {
                assert(!is_digit(ds[(i - start) as int]));
            }
            return None;
        }
        let d = (u - 48) as u128;
        let ghost pre = ds.subrange(0, (i - start) as int);
        proof {
            lemma_digits_val_step(ds, (i - start) as int);
            assert(all_digits(ds.subrange(0, (i - start) as int + 1))) by {
                let nx = ds.subrange(0, (i - start) as int + 1);
                assert(forall|j: int| 0 <= j < nx.len() ==> nx[j] == ds[j]);
            }
        }
        mag = mag * 10 + d;
        i += 1;
        if mag > 0x8000000000000000u128 {
            proof {
                if all_digits(ds) {
                    lemma_digits_val_monotone(ds, (i - start) as int);
                }
            }
            return None;
        }
    }
    proof {
        assert(ds.subrange(0, (len - start) as int) =~= ds);
    }
    if neg {
        let v = -(mag as i128);
        Some(v as i64)
    } else {
        if mag > 0x7fffffffffffffffu128 {
            return None;
        }
        Some(mag as i64)
    }
}

// ---------------------------------------------------------------------------
// Event-line grammar: `tag>>payload`, the payload of the four recognized
// tags being `id,rest`.
// ---------------------------------------------------------------------------
/// Index of the first occurrence of `c` in `s`.
pub open spec fn find_index(s: Seq<char>, c: char) -> Option<int>
    decreases s.len(),
{
    if s.len() == 0 {
        None
    } else if s[0] == c {
        Some(0)
    } else {
        match find_index(s.drop_first(), c) {
            Some(i) => Some(i + 1),
            None => None,
        }
    }
}

pub proof fn lemma_find_index_some(s: Seq<char>, c: char, i: int)
    requires
        0 <= i < s.len(),
        s[i] == c,
        forall|j: int| 0 <= j < i ==> s[j] != c,
    ensures
        find_index(s, c) == Some(i),
    decreases s.len(),
{
    if s[0] == c {
    } else {
        let t = s.drop_first();
        assert(forall|j: int| 0 <= j < t.len() ==> t[j] == s[j + 1]);
        lemma_find_index_some(t, c, i - 1);
    }
}

pub proof fn lemma_find_index_none(s: Seq<char>, c: char)
    requires
        forall|j: int| 0 <= j < s.len() ==> s[j] != c,
    ensures
        find_index(s, c) is None,
    decreases s.len(),
{
    if s.len() > 0 {
        let t = s.drop_first();
        assert(forall|j: int| 0 <= j < t.len() ==> t[j] == s[j + 1]);
        lemma_find_index_none(t, c);
    }
}

/// A recognized (or rejected) event line, as the grammar reads it.
#[allow(inconsistent_fields)]
pub enum LineCommand {
    /// `createworkspacev2>>{id},{name}`: insert if the id is absent.
    Create { id: i64, name: Seq<char> },
    /// `destroyworkspacev2>>{id},{name}`: remove the id if present.
    Destroy { id: i64, name: Seq<char> },
    /// `workspacev2>>{id},...`: set the active workspace (empty id: none).
    Active { id: Option<i64> },
    /// `activespecialv2>>{id},...`: set the active special workspace.
    ActiveSpecial { id: Option<i64> },
    /// A malformed create/destroy line: resynchronize with a full query.
    MalformedSync,
    /// A malformed active line or an unrecognized tag: skip it.
    Ignored,
}

/// Read a create/destroy payload `{id},{name}`.
pub open spec fn parse_create_destroy(p: Seq<char>, create: bool) -> LineCommand {
    match find_index(p, ',') {
        None => LineCommand::MalformedSync,
        Some(ci) => match spec_parse_i64(p.subrange(0, ci)) {
            None => LineCommand::MalformedSync,
            Some(id) => {
                let name = p.subrange(ci + 1, p.len() as int);
                if create {
                    LineCommand::Create { id, name }
                } else {
                    LineCommand::Destroy { id, name }
                }
            },
        },
    }
}

/// Read an active-workspace payload `{id},...` (empty id means none).
pub open spec fn parse_active(p: Seq<char>, primary: bool) -> LineCommand {
    match find_index(p, ',') {
        None => LineCommand::Ignored,
        Some(ci) => {
            let ids = p.subrange(0, ci);
            if ids.len() == 0 {
                if primary {
                    LineCommand::Active { id: None }
                } else {
                    LineCommand::ActiveSpecial { id: None }
                }
            } else {
                match spec_parse_i64(ids) {
                    None => LineCommand::Ignored,
                    Some(id) => if primary {
                        LineCommand::Active { id: Some(id) }
                    } else {
                        LineCommand::ActiveSpecial { id: Some(id) }
                    },
                }
            }
        },
    }
}

/// What an event line means (the line arrives without its trailing
/// newline).
pub open spec fn parse_line(l: Seq<char>) -> LineCommand {
    if starts_with(l, "createworkspacev2>>"@) {
        parse_create_destroy(l.subrange("createworkspacev2>>"@.len() as int, l.len() as int), true)
    } else if starts_with(l, "destroyworkspacev2>>"@) {
        parse_create_destroy(
            l.subrange("destroyworkspacev2>>"@.len() as int, l.len() as int),
            false,
        )
    } else if starts_with(l, "workspacev2>>"@) {
        parse_active(l.subrange("workspacev2>>"@.len() as int, l.len() as int), true)
    } else if starts_with(l, "activespecialv2>>"@) {
        parse_active(l.subrange("activespecialv2>>"@.len() as int, l.len() as int), false)
    } else {
        LineCommand::Ignored
    }
}

/// What the caller owes after handling a line.
#[derive(PartialEq, Eq, Structural, Clone, Copy, Debug)]
pub enum LineAction {
    /// The line was applied (or cleanly recognized as a no-op).
    Applied,
    /// A create/destroy line was malformed: issue a full workspace query
    /// and seed the map from its response.
    NeedsResync,
    /// A malformed active line or unknown tag: nothing to do.
    Skipped,
}

// ---------------------------------------------------------------------------
// The ordered workspace table.
// ---------------------------------------------------------------------------
/// The character-level view of the table's entries.
pub open spec fn hypr_entries(s: Seq<(i64, String)>) -> Seq<(i64, Seq<char>)> {
    s.map_values(|p: (i64, String)| (p.0, p.1@))
}

/// Entries strictly increasing by id.
pub open spec fn table_sorted(s: Seq<(i64, String)>) -> bool {
    forall|i: int, j: int| 0 <= i < j < s.len() ==> s[i].0 < s[j].0
}

pub proof fn lemma_sorted_unique(s: Seq<(i64, String)>)
    requires
        table_sorted(s),
    ensures
        entries_unique(hypr_entries(s)),
{
    assert forall|i: int, j: int|
        0 <= i < j < hypr_entries(s).len() implies hypr_entries(s)[i].0 != hypr_entries(
        s,
    )[j].0 by {
        assert(hypr_entries(s)[i] == (s[i].0, s[i].1@));
        assert(hypr_entries(s)[j] == (s[j].0, s[j].1@));
    }
}

/// First index whose id is not below `id` (all of the table if none).
fn table_position(v: &Vec<(i64, String)>, id: i64) -> (r: usize)
    requires
        table_sorted(v@),
    ensures
        r <= v@.len(),
        forall|j: int| 0 <= j < r ==> v@[j].0 < id,
        forall|j: int| r <= j < v@.len() ==> v@[j].0 >= id,
{
    let mut i: usize = 0;
    while i < v.len()
        invariant
            table_sorted(v@),
            i <= v@.len(),
            forall|j: int| 0 <= j < i ==> v@[j].0 < id,
        decreases v@.len() - i,
    {
        if v[i].0 >= id {
            return i;
        }
        i += 1;
    }
    i
}

/// Insert `id -> name` only if the id is absent; on a collision the
/// original entry is kept. Returns whether the entry was added.
fn table_insert_if_absent(v: &mut Vec<(i64, String)>, id: i64, name: String) -> (added: bool)
    requires
        table_sorted(old(v)@),
    ensures
        table_sorted(final(v)@),
        added == !map_of(hypr_entries(old(v)@)).contains_key(id),
        map_of(hypr_entries(final(v)@)) == if map_of(hypr_entries(old(v)@)).contains_key(id) {
            map_of(hypr_entries(old(v)@))
        } else {
            map_of(hypr_entries(old(v)@)).insert(id, name@)
        },
{
    let ghost s0 = hypr_entries(v@);
    proof {
        lemma_sorted_unique(v@);
        lemma_map_of_contains(s0, id);
    }
    let pos = table_position(v, id);
    if pos < v.len() && v[pos].0 == id {
        proof {
            assert(s0[pos as int].0 == id);
        }
        return false;
    }
    proof {
        assert(!entries_have(s0, id)) by {
            if entries_have(s0, id) {
                let j = choose|j: int| 0 <= j < s0.len() && s0[j].0 == id;
                assert(v@[j].0 == id);
            }
        }
        lemma_map_of_seq_insert(s0, pos as int, id, name@);
    }
    let ghost v0 = v@;
    v.insert(pos, (id, name));
    proof {
        v0.insert_ensures(pos as int, (id, name));
        assert(hypr_entries(v@) =~= s0.insert(pos as int, (id, name@)));
        assert(table_sorted(v@)) by {
            assert forall|i: int, j: int| 0 <= i < j < v@.len() implies v@[i].0 < v@[j].0 by {
                if j < pos {
                } else if i < pos && j == pos {
                    assert(v@[i] == v0[i]);
                } else if i < pos && j > pos {
                    assert(v@[i] == v0[i] && v@[j] == v0[j - 1]);
                } else if i == pos {
                    assert(v@[j] == v0[j - 1] && v0[j - 1].0 >= id && v0[j - 1].0 != id);
                } else {
                    assert(v@[i] == v0[i - 1] && v@[j] == v0[j - 1]);
                }
            }
        }
    }
    true
}

/// Insert `id -> name`, overwriting any previous entry (used when seeding
/// from a full query, where the later descriptor wins).
fn table_upsert(v: &mut Vec<(i64, String)>, id: i64, name: String)
    requires
        table_sorted(old(v)@),
    ensures
        table_sorted(final(v)@),
        map_of(hypr_entries(final(v)@)) == map_of(hypr_entries(old(v)@)).insert(id, name@),
{
    let ghost m0 = map_of(hypr_entries(v@));
    table_remove(v, id);
    table_insert_if_absent(v, id, name);
    proof {
        assert(m0.remove(id).insert(id, name@) =~= m0.insert(id, name@));
    }
}

/// Remove `id` if present (absence is a logged no-op for the caller).
fn table_remove(v: &mut Vec<(i64, String)>, id: i64) -> (removed: bool)
    requires
        table_sorted(old(v)@),
    ensures
        table_sorted(final(v)@),
        removed == map_of(hypr_entries(old(v)@)).contains_key(id),
        map_of(hypr_entries(final(v)@)) == map_of(hypr_entries(old(v)@)).remove(id),
{
    let ghost s0 = hypr_entries(v@);
    proof {
        lemma_sorted_unique(v@);
        lemma_map_of_contains(s0, id);
    }
    let pos = table_position(v, id);
    let ghost v0 = v@;
    if pos < v.len() && v[pos].0 == id {
        proof {
            assert(s0[pos as int].0 == id);
            lemma_map_of_remove(s0, pos as int);
        }
        v.remove(pos);
        proof {
            assert(hypr_entries(v@) =~= s0.remove(pos as int));
            v0.remove_ensures(pos as int);
            assert(table_sorted(v@)) by {
                assert forall|i: int, j: int| 0 <= i < j < v@.len() implies v@[i].0 < v@[j].0 by {
                    let i0: int = if i < pos {
                        i
                    } else {
                        i + 1
                    };
                    let j0: int = if j < pos {
                        j
                    } else {
                        j + 1
                    };
                    assert(v@[i] == v0[i0] && v@[j] == v0[j0]);
                }
            }
        }
        true
    } else {
        proof {
            assert(!entries_have(s0, id)) by {
                if entries_have(s0, id) {
                    let j = choose|j: int| 0 <= j < s0.len() && s0[j].0 == id;
                    assert(v@[j].0 == id);
                }
            }
            assert(map_of(s0).remove(id) =~= map_of(s0));
        }
        false
    }
}

// ---------------------------------------------------------------------------
// The widget state.
// ---------------------------------------------------------------------------
/// Snapshot of the Hyprland workspace list: an ordered map from the
/// compositor-assigned id to the display name, plus two optional cursor
/// ids with no uniqueness constraint relative to the map.
pub struct HyprlandWorkspace {
    pub error_message: Option<String>,
    pub workspaces: Vec<(i64, String)>,
    pub active_workspace: Option<i64>,
    pub active_special_workspace: Option<i64>,
}

impl HyprlandWorkspace {
    /// The workspace map this snapshot denotes.
    pub open spec fn ws_map(self) -> Map<i64, Seq<char>> {
        map_of(hypr_entries(self.workspaces@))
    }

    /// The table is strictly ordered by id.
    pub open spec fn wf(self) -> bool {
        table_sorted(self.workspaces@)
    }

    /// Fresh snapshot: no workspaces, no cursors.
    pub fn new() -> (r: HyprlandWorkspace)
        ensures
            r.wf(),
            r.error_message is None,
            r.ws_map() == Map::<i64, Seq<char>>::empty(),
            r.active_workspace is None,
            r.active_special_workspace is None,
    {
        let r = HyprlandWorkspace {
            error_message: None,
            workspaces: Vec::new(),
            active_workspace: None,
            active_special_workspace: None,
        };
        proof {
            assert(hypr_entries(r.workspaces@) =~= Seq::<(i64, Seq<char>)>::empty());
        }
        r
    }

    /// A terminal failure (socket setup or read error): the widget
    /// renders the message from now on.
    pub fn set_error(&mut self, e: String)
        ensures
            final(self).wf() == old(self).wf(),
            final(self).error_message == Some(e),
            final(self).workspaces == old(self).workspaces,
            final(self).active_workspace == old(self).active_workspace,
            final(self).active_special_workspace == old(self).active_special_workspace,
    {
        self.error_message = Some(e);
    }

    /// Replace the whole map from a full-query response; a later
    /// descriptor wins over an earlier one with the same id.
    pub fn seed_workspaces(&mut self, entries: Vec<(i64, String)>)
        requires
            old(self).wf(),
        ensures
            final(self).wf(),
            final(self).ws_map() == map_of(hypr_entries(entries@)),
            final(self).error_message == old(self).error_message,
            final(self).active_workspace == old(self).active_workspace,
            final(self).active_special_workspace == old(self).active_special_workspace,
    {
        self.workspaces = Vec::new();
        proof {
            assert(hypr_entries(self.workspaces@) =~= Seq::<(i64, Seq<char>)>::empty());
        }
        let mut i: usize = 0;
        while i < entries.len()
            invariant
                i <= entries@.len(),
                table_sorted(self.workspaces@),
                map_of(hypr_entries(self.workspaces@)) == map_of(
                    hypr_entries(entries@.subrange(0, i as int)),
                ),
                self.error_message == old(self).error_message,
                self.active_workspace == old(self).active_workspace,
                self.active_special_workspace == old(self).active_special_workspace,
            decreases entries@.len() - i,
        {
            let id = entries[i].0;
            let name = entries[i].1.clone();
            table_upsert(&mut self.workspaces, id, name);
            proof {
                assert(hypr_entries(entries@.subrange(0, i + 1)).drop_last() =~= hypr_entries(
                    entries@.subrange(0, i as int),
                ));
                assert(hypr_entries(entries@.subrange(0, i + 1)).last() == (
                    entries@[i as int].0,
                    entries@[i as int].1@,
                ));
            }
            i += 1;
        }
        proof {
            assert(entries@.subrange(0, entries@.len() as int) =~= entries@);
        }
    }

    /// Handle one event-socket line (without its trailing newline) and
    /// say what the transport owes afterwards: nothing, or a full
    /// resynchronizing query whose response is fed to
    /// [`Self::seed_workspaces`]. On an id collision the original entry's
    /// name is retained.
    pub fn handle_line(&mut self, line: &str) -> (act: LineAction)
        requires
            old(self).wf(),
        ensures
            final(self).wf(),
            final(self).error_message == old(self).error_message,
            final(self).ws_map() == apply_command(old(self).ws_map(), parse_line(line@)),
            (parse_line(line@) matches LineCommand::Create { id, name } ==> {
                &&& act == LineAction::Applied
                &&& final(self).ws_map() == if old(self).ws_map().contains_key(id) {
                    old(self).ws_map()
                } else {
                    old(self).ws_map().insert(id, name)
                }
                &&& final(self).active_workspace == old(self).active_workspace
                &&& final(self).active_special_workspace == old(self).active_special_workspace
            }),
            (parse_line(line@) matches LineCommand::Destroy { id, name } ==> {
                &&& act == LineAction::Applied
                &&& final(self).ws_map() == old(self).ws_map().remove(id)
                &&& final(self).active_workspace == old(self).active_workspace
                &&& final(self).active_special_workspace == old(self).active_special_workspace
            }),
            (parse_line(line@) matches LineCommand::Active { id } ==> {
                &&& act == LineAction::Applied
                &&& final(self).ws_map() == old(self).ws_map()
                &&& final(self).active_workspace == id
                &&& final(self).active_special_workspace == old(self).active_special_workspace
            }),
            (parse_line(line@) matches LineCommand::ActiveSpecial { id } ==> {
                &&& act == LineAction::Applied
                &&& final(self).ws_map() == old(self).ws_map()
                &&& final(self).active_workspace == old(self).active_workspace
                &&& final(self).active_special_workspace == id
            }),
            parse_line(line@) is MalformedSync ==> act == LineAction::NeedsResync && *final(self)
                == *old(self),
            parse_line(line@) is Ignored ==> act == LineAction::Skipped
                && *final(self) == *old(self),
    {
        if str_starts_with(line, "createworkspacev2>>") {
            let payload = line.substring_char("createworkspacev2>>".unicode_len(), line.unicode_len());
            self.apply_create_destroy(payload, true)
        } else if str_starts_with(line, "destroyworkspacev2>>") {
            let payload = line.substring_char("destroyworkspacev2>>".unicode_len(), line.unicode_len());
            self.apply_create_destroy(payload, false)
        } else if str_starts_with(line, "workspacev2>>") {
            let payload = line.substring_char("workspacev2>>".unicode_len(), line.unicode_len());
            self.apply_active(payload, true)
        } else if str_starts_with(line, "activespecialv2>>") {
            let payload = line.substring_char("activespecialv2>>".unicode_len(), line.unicode_len());
            self.apply_active(payload, false)
        } else {
            LineAction::Skipped
        }
    }

    /// Apply a create/destroy payload (`{id},{name}`).
    fn apply_create_destroy(&mut self, payload: &str, create: bool) -> (act: LineAction)
        requires
            old(self).wf(),
        ensures
            final(self).wf(),
            final(self).error_message == old(self).error_message,
            (parse_create_destroy(payload@, create) matches LineCommand::Create { id, name } ==> {
                &&& act == LineAction::Applied
                &&& final(self).ws_map() == if old(self).ws_map().contains_key(id) {
                    old(self).ws_map()
                } else {
                    old(self).ws_map().insert(id, name)
                }
                &&& final(self).active_workspace == old(self).active_workspace
                &&& final(self).active_special_workspace == old(self).active_special_workspace
            }),
            (parse_create_destroy(payload@, create) matches LineCommand::Destroy { id, name }
                ==> {
                &&& act == LineAction::Applied
                &&& final(self).ws_map() == old(self).ws_map().remove(id)
                &&& final(self).active_workspace == old(self).active_workspace
                &&& final(self).active_special_workspace == old(self).active_special_workspace
            }),
            parse_create_destroy(payload@, create) is MalformedSync ==> act
                == LineAction::NeedsResync && *final(self) == *old(self),
    {
        match find_char(payload, ',') {
            None => {
                proof {
                    lemma_find_index_none(payload@, ',');
                }
                LineAction::NeedsResync
            },
            Some(ci) => {
                proof {
                    lemma_find_index_some(payload@, ',', ci as int);
                }
                let plen = payload.unicode_len();
                let id_str = payload.substring_char(0, ci);
                match parse_i64(id_str) {
                    None => LineAction::NeedsResync,
                    Some(id) => {
                        let name_str = payload.substring_char(ci + 1, plen);
                        if create {
                            table_insert_if_absent(&mut self.workspaces, id, name_str.to_owned());
                        } else {
                            table_remove(&mut self.workspaces, id);
                        }
                        LineAction::Applied
                    },
                }
            },
        }
    }

    /// Apply an active-workspace payload (`{id},...`).
    fn apply_active(&mut self, payload: &str, primary: bool) -> (act: LineAction)
        requires
            old(self).wf(),
        ensures
            final(self).wf(),
            final(self).error_message == old(self).error_message,
            (parse_active(payload@, primary) matches LineCommand::Active { id } ==> {
                &&& act == LineAction::Applied
                &&& final(self).ws_map() == old(self).ws_map()
                &&& final(self).workspaces == old(self).workspaces
                &&& final(self).active_workspace == id
                &&& final(self).active_special_workspace == old(self).active_special_workspace
            }),
            (parse_active(payload@, primary) matches LineCommand::ActiveSpecial { id } ==> {
                &&& act == LineAction::Applied
                &&& final(self).ws_map() == old(self).ws_map()
                &&& final(self).workspaces == old(self).workspaces
                &&& final(self).active_workspace == old(self).active_workspace
                &&& final(self).active_special_workspace == id
            }),
            parse_active(payload@, primary) is Ignored ==> act == LineAction::Skipped
                && *final(self) == *old(self),
    {
        match find_char(payload, ',') {
            None => {
                proof {
                    lemma_find_index_none(payload@, ',');
                }
                LineAction::Skipped
            },
            Some(ci) => {
                proof {
                    lemma_find_index_some(payload@, ',', ci as int);
                }
                let id = if ci == 0 {
                    proof {
                        assert(payload@.subrange(0, 0) =~= Seq::<char>::empty());
                    }
                    None
                } else {
                    let id_str = payload.substring_char(0, ci);
                    match parse_i64(id_str) {
                        None => {
                            return LineAction::Skipped;
                        },
                        Some(id) => Some(id),
                    }
                };
                if primary {
                    self.active_workspace = id;
                } else {
                    self.active_special_workspace = id;
                }
                LineAction::Applied
            },
        }
    }

    /// Look up a workspace's name.
    pub fn workspace_name(&self, id: i64) -> (r: Option<&String>)
        requires
            self.wf(),
        ensures
            match r {
                Some(n) => self.ws_map().contains_key(id) && n@ == self.ws_map()[id],
                None => !self.ws_map().contains_key(id),
            },
    {
        proof {
            lemma_sorted_unique(self.workspaces@);
            lemma_map_of_contains(hypr_entries(self.workspaces@), id);
        }
        let pos = table_position(&self.workspaces, id);
        if pos < self.workspaces.len() && self.workspaces[pos].0 == id {
            proof {
                assert(hypr_entries(self.workspaces@)[pos as int].0 == id);
                lemma_map_of_index(hypr_entries(self.workspaces@), pos as int);
            }
            Some(&self.workspaces[pos].1)
        } else {
            proof {
                assert(!entries_have(hypr_entries(self.workspaces@), id)) by {
                    if entries_have(hypr_entries(self.workspaces@), id) {
                        let j = choose|j: int|
                            0 <= j < hypr_entries(self.workspaces@).len() && hypr_entries(
                                self.workspaces@,
                            )[j].0 == id;
                        assert(self.workspaces@[j].0 == id);
                    }
                }
            }
            None
        }
    }

    /// Whether `id` is decorated as active (either cursor points at it).
    pub fn is_active_id(&self, id: i64) -> (r: bool)
        ensures
            r == (self.active_workspace == Some(id) || self.active_special_workspace == Some(id)),
    {
        self.active_workspace == Some(id) || self.active_special_workspace == Some(id)
    }
}

// ---------------------------------------------------------------------------
// The command-socket query response.
// ---------------------------------------------------------------------------
/// What decoding a workspace-query response yields: the response is a
/// JSON array of descriptor objects, each carrying a numeric `id` and a
/// string `name` (and further fields this driver ignores); the decode is
/// a function of the bytes alone, named here by `workspace_descriptors_of`
/// — `None` when the bytes are not such an array.
pub uninterp spec fn workspace_descriptors_of(b: Seq<u8>) -> Option<Seq<(i64, Seq<char>)>>;

/// Relies on `serde_json::from_slice::<Vec<serde_json::Value>>` (and
/// `Value::get`, `Value::as_i64`, `Value::as_str`): decode a
/// workspace-query response into its `(id, name)` descriptors, `None` if
/// the bytes are not a JSON array of objects each holding both fields.
#[verifier::external_body]
pub fn decode_workspace_list(buf: &[u8]) -> (r: Option<Vec<(i64, String)>>)
    ensures
        match r {
            Some(v) => workspace_descriptors_of(buf@) == Some(hypr_entries(v@)),
            None => workspace_descriptors_of(buf@) is None,
        },
{
    let arr: Vec<serde_json::Value> = serde_json::from_slice(buf).ok()?;
    arr.iter()
        .map(|v| Some((v.get("id")?.as_i64()?, v.get("name")?.as_str()?.to_owned())))
        .collect()
}

impl HyprlandWorkspace {
    /// Digest a full-query response: decode the JSON array and replace
    /// the map with it (a later descriptor wins on a duplicate id); on a
    /// malformed response keep the map and record the error the widget
    /// renders from then on.
    pub fn apply_query_response(&mut self, buf: &[u8]) -> (ok: bool)
        requires
            old(self).wf(),
        ensures
            final(self).wf(),
            final(self).active_workspace == old(self).active_workspace,
            final(self).active_special_workspace == old(self).active_special_workspace,
            ok == (workspace_descriptors_of(buf@) is Some),
            ok ==> final(self).error_message == old(self).error_message && final(self).ws_map()
                == map_of(workspace_descriptors_of(buf@)->0),
            !ok ==> final(self).ws_map() == old(self).ws_map() && final(self).error_message
                is Some,
    {
        match decode_workspace_list(buf) {
            Some(entries) => {
                self.seed_workspaces(entries);
                true
            },
            None => {
                self.set_error("Failed to parse the workspace query response".to_owned());
                false
            },
        }
    }
}

// ---------------------------------------------------------------------------
// The id-collision law.
// ---------------------------------------------------------------------------
/// `cmd` is a create for `id`.
pub open spec fn spec_creates(cmd: LineCommand, id: i64) -> bool {
    match cmd {
        LineCommand::Create { id: cid, .. } => cid == id,
        _ => false,
    }
}

/// How a command transforms the workspace map (the cursor fields and the
/// resynchronization side effects are not part of the map).
pub open spec fn apply_command(m: Map<i64, Seq<char>>, cmd: LineCommand) -> Map<i64, Seq<char>> {
    match cmd {
        LineCommand::Create { id, name } => if m.contains_key(id) {
            m
        } else {
            m.insert(id, name)
        },
        LineCommand::Destroy { id, .. } => m.remove(id),
        _ => m,
    }
}

/// A command sequence folded over a starting map.
pub open spec fn apply_commands(m: Map<i64, Seq<char>>, cmds: Seq<LineCommand>) -> Map<
    i64,
    Seq<char>,
>
    decreases cmds.len(),
{
    if cmds.len() == 0 {
        m
    } else {
        apply_command(apply_commands(m, cmds.drop_last()), cmds.last())
    }
}

/// With only create commands and none creating `id`, the map never gains
/// the key `id`.
pub proof fn lemma_no_create_no_key(cmds: Seq<LineCommand>, id: i64)
    requires
        forall|k: int| 0 <= k < cmds.len() ==> #[trigger] cmds[k] is Create,
        forall|k: int| 0 <= k < cmds.len() ==> !spec_creates(#[trigger] cmds[k], id),
    ensures
        !apply_commands(Map::<i64, Seq<char>>::empty(), cmds).contains_key(id),
    decreases cmds.len(),
{
    if cmds.len() > 0 {
        assert(forall|k: int|
            0 <= k < cmds.drop_last().len() ==> cmds.drop_last()[k] == cmds[k]);
        lemma_no_create_no_key(cmds.drop_last(), id);
        assert(cmds.last() == cmds[cmds.len() - 1]);
    }
}

/// For any interleaving of create lines with duplicate ids, the map holds
/// the name of the *first* create for each id: a later create for the
/// same id (a collision) never overwrites the original entry.
pub proof fn lemma_create_collision_keeps_original(
    cmds: Seq<LineCommand>,
    f: int,
    id: i64,
    name: Seq<char>,
)
    requires
        forall|k: int| 0 <= k < cmds.len() ==> #[trigger] cmds[k] is Create,
        0 <= f < cmds.len(),
        cmds[f] == (LineCommand::Create { id, name }),
        forall|k: int| 0 <= k < f ==> !spec_creates(#[trigger] cmds[k], id),
    ensures
        apply_commands(Map::<i64, Seq<char>>::empty(), cmds).contains_key(id),
        apply_commands(Map::<i64, Seq<char>>::empty(), cmds)[id] == name,
    decreases cmds.len(),
{
    assert(forall|k: int| 0 <= k < cmds.drop_last().len() ==> cmds.drop_last()[k] == cmds[k]);
    if f == cmds.len() - 1 {
        lemma_no_create_no_key(cmds.drop_last(), id);
        assert(cmds.last() == (LineCommand::Create { id, name }));
    } else {
        lemma_create_collision_keeps_original(cmds.drop_last(), f, id, name);
        assert(cmds.last() == cmds[cmds.len() - 1]);
        assert(cmds.last() is Create);
    }
}

} // verus!
