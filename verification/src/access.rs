//! Rendering the access predicate into SQL.
//!
//! The predicate goes in the query and never after it: a page's total alone discloses that assets exist which
//! the caller cannot see. Group identifiers are bound, so no text of the statement depends on one.

use crate::commands::{as_ids, Command, Given};
use crate::sql::{push, push_bind_ids, query, Bind, Query, Statement, MAX_IDS};
use crate::text::{all_chars, join, joined, wrapped};
use crate::{Error, Uuid};
use vstd::prelude::*;

verus! {

/// What a caller may see: every group, or the groups named.
#[derive(Debug, Clone, PartialEq, Eq)]
pub struct AccessPredicate {
    pub all_groups: bool,
    pub allowed_groups: Vec<Uuid>,
}

pub const NOTHING: &'static str = "(false)";

pub const LIVE: &'static str = "(assets.deleted_at IS NULL";

pub const IN_GROUPS: &'static str =
    " AND assets.id IN (SELECT asset_id FROM asset_group_members WHERE group_id = ANY(";

impl AccessPredicate {
    /// Whether an argument can carry the groups.
    pub open spec fn fits(self) -> bool {
        self.allowed_groups@.len() <= MAX_IDS
    }

    /// Whether this predicate lets nothing through.
    pub open spec fn nothing(self) -> bool {
        !self.all_groups && self.allowed_groups@.len() == 0
    }

    /// Whether this predicate lets nothing through.
    pub fn matches_nothing(&self) -> (nothing: bool)
        ensures
            nothing == self.nothing(),
    {
        !self.all_groups && self.allowed_groups.len() == 0
    }

    /// The statement with this predicate's condition appended.
    pub open spec fn after(self, before: Query) -> Query {
        if self.nothing() {
            before.push("(false)"@)
        } else if self.all_groups {
            before.push("(assets.deleted_at IS NULL"@).push(")"@)
        } else {
            before.push(LIVE@).push(
                " AND assets.id IN (SELECT asset_id FROM asset_group_members WHERE group_id = ANY("@,
            ).bind(Bind::Ids(self.allowed_groups@)).push(
                "))"@,
            ).push(")"@)
        }
    }
}

/// Pushes the visibility condition for `predicate`.
///
/// The caller supplies everything up to and including `WHERE`, and may append `AND ...` afterwards. A predicate
/// that matches nothing renders as a false condition rather than as no condition. Release and expiry are
/// absent: they gate distribution, not visibility.
pub fn push_asset_filter(statement: &mut Statement, predicate: &AccessPredicate)
    requires
        predicate.fits(),
    ensures
        query(*final(statement)) == predicate.after(query(*old(statement))),
{
    if predicate.matches_nothing() {
        push(statement, NOTHING);
        return ;
    }
    push(statement, LIVE);
    if !predicate.all_groups {
        push(statement, IN_GROUPS);
        push_bind_ids(statement, &predicate.allowed_groups);
        push(statement, "))");
    }
    push(statement, ")");
}

/// Whether the predicate names groups that have to be looked up before they can be rendered.
pub fn names_groups(predicate: &AccessPredicate) -> (yes: bool)
    ensures
        yes == (!predicate.all_groups && predicate.allowed_groups@.len() > 0),
{
    !predicate.all_groups && predicate.allowed_groups.len() > 0
}

pub const RULE_BASED_PREFIX: &'static str = "asset group(s) ";

pub const RULE_BASED_SUFFIX: &'static str =
    " carry a rule predicate, and evaluating one needs the query IR \
     (task 2.4). Refusing rather than ignoring it: ignoring would silently grant less access \
     than configured.";

/// Refuses a predicate whose granted groups cannot be rendered.
///
/// `rule_based` is the keys of the predicate's groups that carry a rule. Ignoring a rule would grant less than
/// the administrator configured, silently.
pub fn check_groups_are_renderable(
    predicate: &AccessPredicate,
    rule_based: &Vec<String>,
) -> (checked: Result<(), Error>)
    ensures
        checked is Ok <==> (predicate.all_groups || predicate.allowed_groups@.len() == 0
            || rule_based@.len() == 0),
        checked matches Err(error) ==> {
            &&& error matches Error::Unsupported(detail)
            &&& detail@ == "asset group(s) "@ + joined(all_chars(rule_based@), ", "@)
                + " carry a rule predicate, and evaluating one needs the query IR \
                     (task 2.4). Refusing rather than ignoring it: ignoring would silently grant less access \
                     than configured."@
        },
{
    if !names_groups(predicate) || rule_based.len() == 0 {
        Ok(())
    } else {
        let keys = join(rule_based, ", ");
        Err(Error::Unsupported(wrapped(RULE_BASED_PREFIX, keys.as_str(), RULE_BASED_SUFFIX)))
    }
}

/// Nothing is interpolated: two predicates that differ only in which groups they name render as the same text.
pub proof fn groups_leave_no_trace_in_the_text(
    before: Query,
    a: AccessPredicate,
    b: AccessPredicate,
)
    requires
        a.all_groups == b.all_groups,
        (a.allowed_groups@.len() == 0) == (b.allowed_groups@.len() == 0),
    ensures
        a.after(before).sql == b.after(before).sql,
{
}

/// The rendered condition is always in parentheses, so a clause appended after it cannot change its meaning.
pub proof fn the_condition_is_parenthesised(before: Query, predicate: AccessPredicate)
    ensures
        predicate.after(before).sql.len() > before.sql.len() + 1,
        predicate.after(before).sql.take(before.sql.len() as int) == before.sql,
        predicate.after(before).sql[before.sql.len() as int] == '(',
        predicate.after(before).sql.last() == ')',
{
    reveal_strlit("(false)");
    reveal_strlit("(assets.deleted_at IS NULL");
    reveal_strlit(")");
    assert(NOTHING@ == "(false)"@);
    assert(LIVE@ == "(assets.deleted_at IS NULL"@);
    assert(predicate.after(before).sql.take(before.sql.len() as int) =~= before.sql);
}

/// A predicate that lets nothing through never renders as an empty condition, and every other predicate binds
/// exactly the groups it allows, or none when it allows all.
pub proof fn a_predicate_binds_its_groups_and_nothing_else(before: Query, predicate: AccessPredicate)
    ensures
        predicate.nothing() ==> predicate.after(before).sql == before.sql + NOTHING@,
        predicate.after(before).binds == if predicate.all_groups || predicate.nothing() {
            before.binds
        } else {
            before.binds.push(Bind::Ids(predicate.allowed_groups@))
        },
{
}

/// What the filter says: nothing at all for a caller who may see nothing, what is not deleted for one who may see every
/// group, and for any other what is not deleted and is in one of the groups bound behind it.
pub proof fn the_filter_says_who_sees_what(before: Query, predicate: AccessPredicate)
    ensures
        !predicate.all_groups && predicate.allowed_groups@.len() == 0 ==> predicate.after(before).sql == before.sql
            + "(false)"@,
        predicate.all_groups ==> predicate.after(before).sql == before.sql + "(assets.deleted_at IS NULL"@ + ")"@,
        !predicate.all_groups && predicate.allowed_groups@.len() > 0 ==> {
            &&& predicate.after(before).sql == before.sql + "(assets.deleted_at IS NULL"@ + IN_GROUPS@
                + crate::sql::placeholder(before.binds.len() + 1) + "))"@ + ")"@
            &&& predicate.after(before).binds == before.binds.push(Bind::Ids(predicate.allowed_groups@))
        },
{
}

// ----------------------------------------------------------------------------------------------------
// Commands
// ----------------------------------------------------------------------------------------------------

pub const RULE_BASED: &'static str =
    "SELECT key FROM asset_groups WHERE id = ANY($1) AND predicate IS NOT NULL ORDER BY key";

/// Which of these groups are defined by a rule, by their keys.
pub fn rule_based(groups: &Vec<Uuid>) -> (command: Command)
    ensures
        command.says(
            "SELECT key FROM asset_groups WHERE id = ANY($1) AND predicate IS NOT NULL ORDER BY key"@,
            seq![Given::Ids(groups@)],
        ),
{
    Command::new(RULE_BASED, vec![as_ids(groups)])
}

} // verus!
