//! Members choosing their own optional roles.

use vstd::prelude::*;
use crate::commands::verification::{decimal_names, is_decimal_of};
use crate::emoji::{Emoji, parse_emoji, parsed_emoji};
use crate::model::optional_role;
use crate::scheduler::holds_role;

verus! {

/// Whether the member selected role `id`: some selected value is its decimal text.
pub open spec fn selected(values: Seq<String>, id: u64) -> bool {
    exists|i: int| 0 <= i < values.len() && is_decimal_of(#[trigger] values[i]@, id)
}

/// The optional roles to give, in catalog order: selected and not yet held.
pub open spec fn roles_to_add(catalog: Seq<optional_role::Model>, values: Seq<String>, held: Seq<u64>) -> Seq<u64>
    decreases catalog.len(),
{
    if catalog.len() == 0 {
        seq![]
    } else {
        let id = catalog.last().role_id;
        roles_to_add(catalog.drop_last(), values, held) + if selected(values, id) && !held.contains(id) {
            seq![id]
        } else {
            seq![]
        }
    }
}

/// The optional roles to take away, in catalog order: held and not selected.
pub open spec fn roles_to_remove(catalog: Seq<optional_role::Model>, values: Seq<String>, held: Seq<u64>) -> Seq<
    u64,
>
    decreases catalog.len(),
{
    if catalog.len() == 0 {
        seq![]
    } else {
        let id = catalog.last().role_id;
        roles_to_remove(catalog.drop_last(), values, held) + if !selected(values, id) && held.contains(id) {
            seq![id]
        } else {
            seq![]
        }
    }
}

fn is_selected(values: &Vec<String>, id: u64) -> (r: bool)
    ensures
        r == selected(values@, id),
{
    let mut i: usize = 0;
    while i < values.len()
        invariant
            i <= values@.len(),
            forall|j: int| 0 <= j < i ==> !is_decimal_of(#[trigger] values@[j]@, id),
        decreases values@.len() - i,
    {
        if decimal_names(values[i].as_str(), id) {
            return true;
        }
        i = i + 1;
    }
    false
}

/// The two batched changes to a member's roles after a selection.
#[derive(Clone, Debug)]
pub struct RoleChanges {
    pub added: Vec<u64>,
    pub removed: Vec<u64>,
}

/// Decides, for a member holding `held` who selected `values` from the
/// community's optional roles `catalog`, which roles to give (selected, not
/// held) and which to take away (held, not selected). Roles outside the
/// catalog are never touched.
pub fn role_changes(catalog: &Vec<optional_role::Model>, values: &Vec<String>, held: &Vec<u64>) -> (r:
    RoleChanges)
    ensures
        r.added@ == roles_to_add(catalog@, values@, held@),
        r.removed@ == roles_to_remove(catalog@, values@, held@),
{
    let mut added: Vec<u64> = Vec::new();
    let mut removed: Vec<u64> = Vec::new();
    let mut i: usize = 0;
    while i < catalog.len()
        invariant
            i <= catalog@.len(),
            added@ == roles_to_add(catalog@.subrange(0, i as int), values@, held@),
            removed@ == roles_to_remove(catalog@.subrange(0, i as int), values@, held@),
        decreases catalog@.len() - i,
    {
        let id = catalog[i].role_id;
        proof {
            assert(catalog@.subrange(0, i + 1).drop_last() =~= catalog@.subrange(0, i as int));
        }
        let present = is_selected(values, id);
        let holds = holds_role(held, id);
        if present && !holds {
            added.push(id);
        } else if !present && holds {
            removed.push(id);
        }
        i = i + 1;
        assert(added@ =~= roles_to_add(catalog@.subrange(0, i as int), values@, held@));
        assert(removed@ =~= roles_to_remove(catalog@.subrange(0, i as int), values@, held@));
    }
    assert(catalog@.subrange(0, catalog@.len() as int) =~= catalog@);
    RoleChanges { added, removed }
}

/// One choice of the optional-role menu.
#[derive(Clone, Debug)]
pub struct MenuEntry {
    pub role_id: u64,
    pub emoji: Option<Emoji>,
    /// Whether the member holds the role already.
    pub selected: bool,
}

/// Why the optional-role menu cannot be shown.
#[derive(Clone, Copy, Debug, PartialEq, Eq, Structural)]
pub enum MenuError {
    /// The community has no optional roles.
    NoOptionalRoles,
    /// The emoji configured for this role cannot be read.
    InvalidEmoji(u64),
}

/// Whether `e` is the menu entry for catalog row `m`, for a member holding `held`.
pub open spec fn entry_for(e: MenuEntry, m: optional_role::Model, held: Seq<u64>) -> bool {
    &&& e.role_id == m.role_id
    &&& e.selected == held.contains(m.role_id)
    &&& match m.emoji {
        None => e.emoji is None,
        Some(t) => e.emoji is Some && parsed_emoji(t@) == Some(e.emoji->Some_0@),
    }
}

/// Whether the emoji configured for catalog row `m` cannot be read.
pub open spec fn bad_emoji(m: optional_role::Model) -> bool {
    m.emoji is Some && parsed_emoji(m.emoji->Some_0@) is None
}

/// Builds the menu of optional roles for a member holding `held`: one entry
/// per catalog row, in order, marked where the member holds the role. Fails
/// on an empty catalog, or at the first row whose emoji cannot be read.
pub fn role_select_menu(catalog: &Vec<optional_role::Model>, held: &Vec<u64>) -> (r: Result<
    Vec<MenuEntry>,
    MenuError,
>)
    ensures
        catalog@.len() == 0 ==> r == Err::<Vec<MenuEntry>, MenuError>(MenuError::NoOptionalRoles),
        catalog@.len() > 0 && (forall|i: int| 0 <= i < catalog@.len() ==> !bad_emoji(#[trigger] catalog@[i]))
            ==> r is Ok,
        r matches Ok(v) ==> v@.len() == catalog@.len() && forall|i: int|
            0 <= i < v@.len() ==> entry_for(#[trigger] v@[i], catalog@[i], held@),
        r matches Err(MenuError::InvalidEmoji(id)) ==> exists|i: int|
            0 <= i < catalog@.len() && #[trigger] catalog@[i].role_id == id && bad_emoji(catalog@[i])
                && forall|j: int| 0 <= j < i ==> !bad_emoji(#[trigger] catalog@[j]),
{
    if catalog.len() == 0 {
        return Err(MenuError::NoOptionalRoles);
    }
    let mut entries: Vec<MenuEntry> = Vec::new();
    let mut i: usize = 0;
    while i < catalog.len()
        invariant
            i <= catalog@.len(),
            entries@.len() == i,
            forall|j: int| 0 <= j < i ==> entry_for(#[trigger] entries@[j], catalog@[j], held@),
            forall|j: int| 0 <= j < i ==> !bad_emoji(#[trigger] catalog@[j]),
        decreases catalog@.len() - i,
    {
        let m = &catalog[i];
        let emoji = match &m.emoji {
            None => None,
            Some(t) => match parse_emoji(t.clone()) {
                None => {
                    return Err(MenuError::InvalidEmoji(m.role_id));
                },
                Some(e) => Some(e),
            },
        };
        let selected = holds_role(held, m.role_id);
        entries.push(MenuEntry { role_id: m.role_id, emoji, selected });
        i = i + 1;
    }
    Ok(entries)
}

} // verus!
