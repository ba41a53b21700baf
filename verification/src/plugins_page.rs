//! What the Plugins page shows and offers: the manual install field, and
//! each provider row's notes and buttons.

use vstd::prelude::*;
use vstd::string::StringExecFns;
use crate::chains::{capability_label, capability_prefix, Plugin, ProviderRow};
use crate::text::{trim, trimmed};

verus! {

/// What the manual install field asks for when the user installs: the
/// address typed, without white space at either end; nothing when only
/// white space was typed. The field is emptied once a request is made.
pub fn install_request(draft: &str) -> (r: Option<String>)
    ensures
        trimmed(draft@).len() > 0 ==> r is Some && r->0@ == trimmed(draft@),
        trimmed(draft@).len() == 0 ==> r is None,
{
    let url = trim(draft);
    if url.as_str().is_empty() {
        None
    } else {
        Some(url)
    }
}

/// A button of a provider row.
#[derive(Clone, Copy, Debug, PartialEq, Eq, Structural)]
pub enum RowButton {
    /// Takes the seat at the back of the chain.
    AskLast,
    /// Uninstalls the plugin.
    Remove,
    /// Moves it one seat later.
    AskLater,
    /// Moves it one seat earlier.
    AskFirst,
    /// Opens the plugin's homepage.
    Homepage,
}

/// The buttons of a row, from the right edge leftwards: outside the chain
/// only the back seat; seated, removal and the moves it has a neighbour
/// for; then the homepage, when there is one.
pub open spec fn buttons_of(row: ProviderRow, has_homepage: bool) -> Seq<RowButton> {
    let controls = if row.outside_chain {
        seq![RowButton::AskLast]
    } else {
        seq![RowButton::Remove]
            + (if row.can_move_down { seq![RowButton::AskLater] } else { seq![] })
            + (if row.can_move_up { seq![RowButton::AskFirst] } else { seq![] })
    };
    controls + if has_homepage { seq![RowButton::Homepage] } else { seq![] }
}

/// The buttons of a provider row, from the right edge leftwards.
pub fn row_buttons(row: ProviderRow, homepage: &str) -> (r: Vec<RowButton>)
    ensures
        r@ == buttons_of(row, homepage@.len() > 0),
{
    let mut r: Vec<RowButton> = Vec::new();
    if row.outside_chain {
        r.push(RowButton::AskLast);
    } else {
        r.push(RowButton::Remove);
        if row.can_move_down {
            r.push(RowButton::AskLater);
        }
        if row.can_move_up {
            r.push(RowButton::AskFirst);
        }
    }
    if !homepage.is_empty() {
        r.push(RowButton::Homepage);
    }
    assert(r@ =~= buttons_of(row, homepage@.len() > 0));
    r
}

/// The chip a capability reads as.
pub open spec fn chip_text(capability: Seq<char>) -> Seq<char> {
    if capability_prefix().is_prefix_of(capability) {
        capability.skip(9)
    } else {
        capability
    }
}

/// A provider row's notes: the version beside the name, a note when the
/// plugin is disabled for the session, and a chip per capability.
pub struct RowNotes {
    /// `v` and the version.
    pub version: String,
    /// The plugin failed too often and is skipped this session.
    pub disabled: bool,
    /// Each capability as it reads.
    pub chips: Vec<String>,
}

/// The notes of `plugin`'s row; `disabled` says whether the plugin is
/// skipped this session.
pub fn row_notes(plugin: &Plugin, disabled: bool) -> (r: RowNotes)
    ensures
        r.version@ == seq!['v'] + plugin.version@,
        r.disabled == disabled,
        r.chips@.len() == plugin.capabilities@.len(),
        forall|i: int| 0 <= i < r.chips@.len() ==> #[trigger] r.chips@[i]@ == chip_text(plugin.capabilities@[i]@),
{
    let mut version = String::from_str("v");
    proof {
        reveal_strlit("v");
    }
    version.append(plugin.version.as_str());
    let mut chips: Vec<String> = Vec::new();
    let mut i: usize = 0;
    while i < plugin.capabilities.len()
        invariant
            i <= plugin.capabilities@.len(),
            chips@.len() == i,
            forall|j: int| 0 <= j < i ==> #[trigger] chips@[j]@ == chip_text(plugin.capabilities@[j]@),
        decreases plugin.capabilities@.len() - i,
    {
        chips.push(capability_label(plugin.capabilities[i].as_str()));
        i = i + 1;
    }
    RowNotes { version, disabled, chips }
}

/// Whether a kind's section says no plugin is installed and the built-in
/// source answers: when none of its rows holds a seat in the chain.
pub fn builtin_only(rows: &Vec<ProviderRow>) -> (r: bool)
    ensures
        r == forall|i: int| 0 <= i < rows@.len() ==> (#[trigger] rows@[i]).outside_chain,
{
    let mut i: usize = 0;
    while i < rows.len()
        invariant
            i <= rows@.len(),
            forall|j: int| 0 <= j < i ==> (#[trigger] rows@[j]).outside_chain,
        decreases rows@.len() - i,
    {
        if !rows[i].outside_chain {
            return false;
        }
        i = i + 1;
    }
    true
}


/// What a row offers: a seated row can always be removed, offers "ask this
/// one later" exactly when it can move down and "ask this one first"
/// exactly when it can move up, each whatever the other; a row outside the
/// chain offers only the back seat; the homepage button comes exactly when
/// there is a homepage.
pub proof fn lemma_row_offers_what_its_seat_allows(row: ProviderRow, has_homepage: bool)
    ensures
        !row.outside_chain ==> buttons_of(row, has_homepage).contains(RowButton::Remove)
            && (buttons_of(row, has_homepage).contains(RowButton::AskLater) <==> row.can_move_down)
            && (buttons_of(row, has_homepage).contains(RowButton::AskFirst) <==> row.can_move_up)
            && !buttons_of(row, has_homepage).contains(RowButton::AskLast),
        row.outside_chain ==> buttons_of(row, has_homepage).contains(RowButton::AskLast)
            && !buttons_of(row, has_homepage).contains(RowButton::Remove)
            && !buttons_of(row, has_homepage).contains(RowButton::AskLater)
            && !buttons_of(row, has_homepage).contains(RowButton::AskFirst),
        buttons_of(row, has_homepage).contains(RowButton::Homepage) <==> has_homepage,
{
    let b = buttons_of(row, has_homepage);
    if row.outside_chain {
        if has_homepage {
            assert(b == seq![RowButton::AskLast, RowButton::Homepage]);
            assert(b[0] == RowButton::AskLast);
            assert(b[1] == RowButton::Homepage);
        } else {
            assert(b == seq![RowButton::AskLast]);
            assert(b[0] == RowButton::AskLast);
        }
    } else {
        let mut expect: Seq<RowButton> = seq![RowButton::Remove];
        if row.can_move_down {
            expect = expect.push(RowButton::AskLater);
        }
        if row.can_move_up {
            expect = expect.push(RowButton::AskFirst);
        }
        if has_homepage {
            expect = expect.push(RowButton::Homepage);
        }
        assert(b =~= expect);
        assert(b[0] == RowButton::Remove);
        if row.can_move_down {
            assert(b[1] == RowButton::AskLater);
        }
        if row.can_move_up {
            let k = if row.can_move_down { 2int } else { 1int };
            assert(b[k] == RowButton::AskFirst);
        }
        if has_homepage {
            assert(b[b.len() - 1] == RowButton::Homepage);
        }
    }
}

} // verus!
