//! Ratings, favourites and watches.
//!
//! Every write resolves the asset under the caller's plan first, and an asset they cannot see is refused exactly
//! as one that does not exist. Every read goes through it too, the caller's own lists among them: access can be
//! withdrawn after a favourite is made. Clearing is deleting.

use crate::commands::{Command, Given, Value};
use crate::query_sql::{push_where, Planned};
use crate::sql::{push, push_bind_id, push_bind_ids, push_bind_int, query, Bind, Query, Statement, MAX_IDS};
use crate::text::{int_chars, int_text, uuid_chars, uuid_text};
use crate::{clamp, clamped, Uuid};
use vstd::prelude::*;

verus! {

/// Why an engagement write or read was refused.
#[derive(Debug, Clone, PartialEq, Eq)]
pub enum EngagementRefusal {
    /// No such asset, or not one this caller may see. The same refusal for both: a different answer is the
    /// disclosure.
    UnknownAsset(Uuid),
    OutOfRange(i16),
}

impl EngagementRefusal {
    /// The text of this refusal.
    pub open spec fn message_chars(self) -> Seq<char> {
        match self {
            EngagementRefusal::UnknownAsset(given) => "no asset "@ + uuid_chars(given),
            EngagementRefusal::OutOfRange(given) => "a rating is 1 to 5 stars; "@ + int_chars(given as int) + " is not"@,
        }
    }

    /// The sentence whoever was refused reads.
    pub fn message(&self) -> (out: String)
        ensures
            out@ == self.message_chars(),
    {
        match self {
            EngagementRefusal::UnknownAsset(given) => {
                let mut out = "no asset ".to_owned();
                out.append(uuid_text(*given).as_str());
                out
            },
            EngagementRefusal::OutOfRange(given) => {
                let mut out = "a rating is 1 to 5 stars; ".to_owned();
                out.append(int_text(*given as i128).as_str());
                out.append(" is not");
                out
            },
        }
    }
}

/// Refuses a rating that is not 1 to 5 stars. Checked before visibility: it is a fact about the request.
pub fn check_stars(stars: i16) -> (checked: Result<(), EngagementRefusal>)
    ensures
        checked == if 1 <= stars <= 5 {
            Ok::<(), EngagementRefusal>(())
        } else {
            Err(EngagementRefusal::OutOfRange(stars))
        },
        checked is Ok <==> 1 <= stars <= 5,
{
    if stars < 1 || stars > 5 {
        Err(EngagementRefusal::OutOfRange(stars))
    } else {
        Ok(())
    }
}

/// Refuses an asset that asking for it did not find.
pub fn check_visible(asset_id: Uuid, found: Option<Uuid>) -> (checked: Result<(), EngagementRefusal>)
    ensures
        checked == if found is Some {
            Ok::<(), EngagementRefusal>(())
        } else {
            Err(EngagementRefusal::UnknownAsset(asset_id))
        },
{
    match found {
        Some(_) => Ok(()),
        None => Err(EngagementRefusal::UnknownAsset(asset_id)),
    }
}

/// The statement that asks for one asset under the caller's plan.
pub fn visible(asset_id: Uuid, planned: &Planned) -> (statement: Statement)
    requires
        planned.fits(),
    ensures
        query(statement) == planned.after(
            Query::new(crate::comments::ONE_ASSET@).bind(Bind::Id(asset_id)).push(" AND "@),
        ),
{
    crate::comments::require_visible_asset(asset_id, planned)
}

pub const MANY_VISIBLE: &'static str =
    "WITH visible AS (SELECT assets.id FROM assets \
     LEFT JOIN asset_metadata ON asset_metadata.asset_id = assets.id WHERE assets.id = ANY(";

pub const MANY_COUNTS: &'static str =
    ") SELECT visible.id, \
              (SELECT avg(stars)::float8 FROM asset_ratings r WHERE r.asset_id = visible.id), \
              (SELECT count(*) FROM asset_ratings r WHERE r.asset_id = visible.id), \
              (SELECT count(*) FROM asset_favourites f WHERE f.asset_id = visible.id), \
              (SELECT stars FROM asset_ratings r WHERE r.asset_id = visible.id \
               AND r.identity_id = ";

pub const MANY_FAVOURITE: &'static str =
    "), \
              EXISTS (SELECT 1 FROM asset_favourites f WHERE f.asset_id = visible.id \
               AND f.identity_id = ";

pub const MANY_WATCHED: &'static str =
    "), \
              EXISTS (SELECT 1 FROM asset_watches w WHERE w.asset_id = visible.id \
               AND w.identity_id = ";

/// The statement that reads the engagement of a page of assets. `None` when there is nothing to ask.
pub fn many(asset_ids: &Vec<Uuid>, identity_id: Uuid, planned: &Planned) -> (statement: Option<Statement>)
    requires
        planned.fits(),
        asset_ids@.len() <= MAX_IDS,
    ensures
        statement is None <==> asset_ids@.len() == 0,
        statement matches Some(inner) ==> query(inner) == planned.after(
            Query::new(
                "WITH visible AS (SELECT assets.id FROM assets \
                 LEFT JOIN asset_metadata ON asset_metadata.asset_id = assets.id WHERE assets.id = ANY("@,
            ).bind(Bind::Ids(asset_ids@)).push(") AND "@),
        ).push(
            ") SELECT visible.id, \
             (SELECT avg(stars)::float8 FROM asset_ratings r WHERE r.asset_id = visible.id), \
             (SELECT count(*) FROM asset_ratings r WHERE r.asset_id = visible.id), \
             (SELECT count(*) FROM asset_favourites f WHERE f.asset_id = visible.id), \
             (SELECT stars FROM asset_ratings r WHERE r.asset_id = visible.id \
             AND r.identity_id = "@,
        ).bind(Bind::Id(identity_id)).push(
            "), \
             EXISTS (SELECT 1 FROM asset_favourites f WHERE f.asset_id = visible.id \
             AND f.identity_id = "@,
        ).bind(
            Bind::Id(identity_id),
        ).push(
            "), \
             EXISTS (SELECT 1 FROM asset_watches w WHERE w.asset_id = visible.id \
             AND w.identity_id = "@,
        ).bind(Bind::Id(identity_id)).push(") FROM visible"@),
{
    if asset_ids.len() == 0 {
        return None;
    }
    let mut statement = Statement::new(MANY_VISIBLE);
    push_bind_ids(&mut statement, asset_ids);
    push(&mut statement, ") AND ");
    push_where(&mut statement, planned);
    push(&mut statement, MANY_COUNTS);
    push_bind_id(&mut statement, identity_id);
    push(&mut statement, MANY_FAVOURITE);
    push_bind_id(&mut statement, identity_id);
    push(&mut statement, MANY_WATCHED);
    push_bind_id(&mut statement, identity_id);
    push(&mut statement, ") FROM visible");
    Some(statement)
}

/// Where `id` stands first in `found`.
pub open spec fn place_in(found: Seq<Uuid>, id: Uuid) -> Option<int>
    decreases found.len(),
{
    if found.len() == 0 {
        None
    } else if found[0] == id {
        Some(0)
    } else {
        match place_in(found.drop_first(), id) {
            Some(place) => Some(place + 1),
            None => None,
        }
    }
}

/// The rows that answer the caller's own list, in the list's order: for each asset that was found, where its row
/// stands. An asset that was not found is omitted.
pub open spec fn answers(wanted: Seq<Uuid>, found: Seq<Uuid>) -> Seq<int>
    decreases wanted.len(),
{
    if wanted.len() == 0 {
        Seq::empty()
    } else {
        let front = answers(wanted.drop_last(), found);
        match place_in(found, wanted.last()) {
            Some(place) => front.push(place),
            None => front,
        }
    }
}

fn place_of(found: &Vec<Uuid>, id: Uuid) -> (place: Option<usize>)
    ensures
        match place {
            Some(at) => place_in(found@, id) == Some(at as int) && at < found@.len(),
            None => place_in(found@, id) is None,
        },
{
    let mut i: usize = 0;
    proof {
        assert(found@.skip(0) =~= found@);
    }
    while i < found.len()
        invariant
            i <= found@.len(),
            place_in(found@, id) == match place_in(found@.skip(i as int), id) {
                Some(rest) => Some(rest + i),
                None => None,
            },
        decreases found@.len() - i,
    {
        proof {
            let rest = found@.skip(i as int);
            assert(rest[0] == found@[i as int]);
            assert(rest.drop_first() =~= found@.skip(i + 1));
        }
        if found[i] == id {
            return Some(i);
        }
        i += 1;
    }
    None
}

/// Which rows answer the caller's list, in the order the caller asked. The read returns whatever order the
/// planner likes, and a grid has to be able to zip the answers against what it asked for.
pub fn ordered(wanted: &Vec<Uuid>, found: &Vec<Uuid>) -> (places: Vec<usize>)
    ensures
        Seq::new(places@.len(), |i: int| places@[i] as int) == answers(wanted@, found@),
        forall|i: int| 0 <= i < places@.len() ==> #[trigger] places@[i] < found@.len(),
{
    let mut places: Vec<usize> = Vec::new();
    let mut i: usize = 0;
    proof {
        assert(wanted@.take(0) =~= Seq::<Uuid>::empty());
        assert(Seq::new(places@.len(), |j: int| places@[j] as int) =~= Seq::<int>::empty());
    }
    while i < wanted.len()
        invariant
            i <= wanted@.len(),
            Seq::new(places@.len(), |j: int| places@[j] as int) == answers(
                wanted@.take(i as int),
                found@,
            ),
            forall|j: int| 0 <= j < places@.len() ==> #[trigger] places@[j] < found@.len(),
        decreases wanted@.len() - i,
    {
        let ghost before = places@;
        proof {
            assert(wanted@.take(i + 1).drop_last() =~= wanted@.take(i as int));
            assert(wanted@.take(i + 1).last() == wanted@[i as int]);
        }
        match place_of(found, wanted[i]) {
            Some(place) => {
                places.push(place);
                proof {
                    assert(Seq::new(places@.len(), |j: int| places@[j] as int) =~= Seq::new(
                        before.len(),
                        |j: int| before[j] as int,
                    ).push(place as int));
                }
            },
            None => {},
        }
        i += 1;
    }
    proof {
        assert(wanted@.take(i as int) =~= wanted@);
    }
    places
}

/// What kind of private list to read.
#[derive(Debug, Clone, Copy, PartialEq, Eq, Structural)]
pub enum List {
    Favourites,
    Watches,
}

impl List {
    /// The table the list is kept in.
    pub open spec fn table_chars(self) -> Seq<char> {
        match self {
            List::Favourites => "asset_favourites"@,
            List::Watches => "asset_watches"@,
        }
    }

    /// The table the list is kept in: a literal, never a caller's string.
    pub fn table(self) -> (text: &'static str)
        ensures
            text@ == self.table_chars(),
            self == List::Favourites ==> text@ == "asset_favourites"@,
            self == List::Watches ==> text@ == "asset_watches"@,
    {
        match self {
            List::Favourites => "asset_favourites",
            List::Watches => "asset_watches",
        }
    }
}

pub const MINE_SELECT: &'static str =
    "WITH visible AS (SELECT assets.id, mine.created_at FROM assets \
     JOIN ";

pub const MINE_ON: &'static str = " mine ON mine.asset_id = assets.id AND mine.identity_id = ";

pub const MINE_WHERE: &'static str =
    " LEFT JOIN asset_metadata ON asset_metadata.asset_id = assets.id WHERE ";

pub const MINE_PAGE: &'static str = ") SELECT id FROM visible ORDER BY created_at DESC, id LIMIT ";

/// The statement with the caller's own list joined and the caller's plan as its condition.
pub open spec fn joined_mine(before: Query, which: List, identity_id: Uuid, planned: Planned) -> Query {
    planned.after(
        before.push(which.table_chars()).push(
            " mine ON mine.asset_id = assets.id AND mine.identity_id = "@,
        ).bind(Bind::Id(identity_id)).push(
            " LEFT JOIN asset_metadata ON asset_metadata.asset_id = assets.id WHERE "@,
        ),
    )
}

fn push_mine(statement: &mut Statement, which: List, identity_id: Uuid, planned: &Planned)
    requires
        planned.fits(),
    ensures
        query(*final(statement)) == joined_mine(
            query(*old(statement)),
            which,
            identity_id,
            *planned,
        ),
{
    push(statement, which.table());
    push(statement, MINE_ON);
    push_bind_id(statement, identity_id);
    push(statement, MINE_WHERE);
    push_where(statement, planned);
}

/// One page of the caller's own favourites or watches, newest first.
pub fn mine(
    which: List,
    identity_id: Uuid,
    planned: &Planned,
    limit: i64,
    offset: i64,
) -> (statement: Statement)
    requires
        planned.fits(),
    ensures
        query(statement) == joined_mine(Query::new(
            "WITH visible AS (SELECT assets.id, mine.created_at FROM assets \
             JOIN "@,
        ), which, identity_id, *planned).push(
            ") SELECT id FROM visible ORDER BY created_at DESC, id LIMIT "@,
        ).bind(Bind::Int(clamped(limit as int, 0, 500) as i64)).push(" OFFSET "@).bind(
            Bind::Int(
                if offset < 0 {
                    0
                } else {
                    offset
                },
            ),
        ),
        offset >= 0 ==> query(statement).binds.last() == Bind::Int(offset),
        offset < 0 ==> query(statement).binds.last() == Bind::Int(0),
        0 <= limit <= 500 ==> query(statement).binds[query(statement).binds.len() - 2] == Bind::Int(limit),
        limit > 500 ==> query(statement).binds[query(statement).binds.len() - 2] == Bind::Int(500),
        limit < 0 ==> query(statement).binds[query(statement).binds.len() - 2] == Bind::Int(0),
{
    let mut statement = Statement::new(MINE_SELECT);
    push_mine(&mut statement, which, identity_id, planned);
    push(&mut statement, MINE_PAGE);
    push_bind_int(&mut statement, clamp(limit, 0, 500));
    push(&mut statement, " OFFSET ");
    push_bind_int(&mut statement, crate::assets::page_offset(offset));
    statement
}

/// How many assets the caller's own list holds: counted apart from the page, because the page is limited, and
/// under the same condition, because another would disclose the size of what is filtered out.
pub fn mine_total(which: List, identity_id: Uuid, planned: &Planned) -> (statement: Statement)
    requires
        planned.fits(),
    ensures
        query(statement) == joined_mine(
            Query::new("SELECT count(*) FROM assets JOIN "@),
            which,
            identity_id,
            *planned,
        ),
{
    let mut statement = Statement::new("SELECT count(*) FROM assets JOIN ");
    push_mine(&mut statement, which, identity_id, planned);
    statement
}

/// The answers keep the caller's order and invent nothing: each is the place of a row for an asset that was asked
/// for.
pub proof fn answers_are_for_what_was_asked(wanted: Seq<Uuid>, found: Seq<Uuid>, i: int)
    requires
        0 <= i < answers(wanted, found).len(),
    ensures
        0 <= answers(wanted, found)[i] < found.len(),
        wanted.contains(found[answers(wanted, found)[i]]),
    decreases wanted.len(),
{
    let front = answers(wanted.drop_last(), found);
    let all = answers(wanted, found);
    if i < front.len() {
        answers_are_for_what_was_asked(wanted.drop_last(), found, i);
        let id = found[front[i]];
        let k = choose|k: int| 0 <= k < wanted.drop_last().len() && wanted.drop_last()[k] == id;
        assert(wanted[k] == id);
    } else {
        lemma_place(found, wanted.last());
        assert(wanted[wanted.len() - 1] == wanted.last());
    }
}

proof fn lemma_place(found: Seq<Uuid>, id: Uuid)
    ensures
        match place_in(found, id) {
            Some(place) => 0 <= place < found.len() && found[place] == id,
            None => !found.contains(id),
        },
    decreases found.len(),
{
    if found.len() > 0 && found[0] != id {
        let rest = found.drop_first();
        lemma_place(rest, id);
        match place_in(rest, id) {
            Some(place) => {
                assert(rest[place] == found[place + 1]);
            },
            None => {
                if found.contains(id) {
                    let k = choose|k: int| 0 <= k < found.len() && found[k] == id;
                    assert(rest[k - 1] == id);
                    assert(rest.contains(id));
                }
            },
        }
    }
}

/// The rows found are handed back in the order they were asked for, each for the asset it is about, and one for every
/// asset asked for that was found.
pub proof fn answers_come_in_the_order_asked(wanted: Seq<Uuid>, found: Seq<Uuid>)
    ensures
        answers(wanted, found).map_values(|place: int| found[place]) == wanted.filter(|id: Uuid| found.contains(id)),
    decreases wanted.len(),
{
    reveal(Seq::filter);
    let at = |place: int| found[place];
    let there = |id: Uuid| found.contains(id);
    if wanted.len() > 0 {
        answers_come_in_the_order_asked(wanted.drop_last(), found);
        lemma_a_place_is_found(found, wanted.last());
    }
    assert(answers(wanted, found).map_values(at) =~= wanted.filter(there));
}

proof fn lemma_a_place_is_found(found: Seq<Uuid>, id: Uuid)
    ensures
        place_in(found, id) is Some <==> found.contains(id),
        place_in(found, id) matches Some(place) ==> 0 <= place < found.len() && found[place] == id,
    decreases found.len(),
{
    if found.len() > 0 {
        let rest = found.drop_first();
        lemma_a_place_is_found(rest, id);
        if found[0] == id {
            assert(found.contains(found[0]));
        } else {
            if rest.contains(id) {
                let i = choose|i: int| 0 <= i < rest.len() && rest[i] == id;
                assert(found[i + 1] == id);
            }
            if found.contains(id) {
                let i = choose|i: int| 0 <= i < found.len() && found[i] == id;
                assert(rest[i - 1] == id);
            }
        }
    }
}

/// Somebody's list is their own and under the reader's filter: the identity is bound before whatever the filter binds.
pub proof fn a_list_is_its_owners(before: Query, which: List, identity_id: Uuid, planned: Planned)
    ensures
        joined_mine(before, which, identity_id, planned) == planned.after(
            before.push(
                match which {
                    List::Favourites => "asset_favourites"@,
                    List::Watches => "asset_watches"@,
                },
            ).push(MINE_ON@).bind(Bind::Id(identity_id)).push(MINE_WHERE@),
        ),
{
}

/// Somebody's mark on an asset is written for that identity and that asset, and only where they see the asset; where they
/// do not, the asset is refused as unknown.
pub proof fn only_what_is_seen_is_marked(
    written: Result<Command, EngagementRefusal>,
    text: Seq<char>,
    asset_id: Uuid,
    found: Option<Uuid>,
    identity_id: Uuid,
)
    requires
        gated(written, text, asset_id, found, identity_id),
    ensures
        written is Ok <==> found is Some,
        written matches Ok(command) ==> command.says(text, seq![Given::Id(identity_id), Given::Id(asset_id)]),
        written matches Err(refusal) ==> refusal == EngagementRefusal::UnknownAsset(asset_id),
{
}

// ----------------------------------------------------------------------------------------------------
// Commands
// ----------------------------------------------------------------------------------------------------

pub const RATE: &'static str =
    "INSERT INTO asset_ratings (asset_id, identity_id, stars) VALUES ($1, $2, $3) ON CONFLICT (asset_id, \
     identity_id) DO UPDATE SET stars = excluded.stars, updated_at = now()";

/// Rates an asset, in place of an earlier rating. `found` is what asking for the asset under the caller's plan
/// found. The scale comes first: it is a fact about the request.
pub fn rate(
    asset_id: Uuid,
    found: Option<Uuid>,
    identity_id: Uuid,
    stars: i16,
) -> (rated: Result<Command, EngagementRefusal>)
    ensures
        match rated {
            Ok(command) => {
                &&& 1 <= stars <= 5
                &&& found is Some
                &&& command.says(
                    "INSERT INTO asset_ratings (asset_id, identity_id, stars) VALUES ($1, $2, $3) ON CONFLICT (asset_id, \
                     identity_id) DO UPDATE SET stars = excluded.stars, updated_at = now()"@,
                    seq![Given::Id(asset_id), Given::Id(identity_id), Given::Small(stars)],
                )
            },
            Err(refusal) => if 1 <= stars <= 5 {
                found is None && refusal == EngagementRefusal::UnknownAsset(asset_id)
            } else {
                refusal == EngagementRefusal::OutOfRange(stars)
            },
        },
{
    match check_stars(stars) {
        Err(refusal) => return Err(refusal),
        Ok(()) => {},
    }
    match check_visible(asset_id, found) {
        Err(refusal) => Err(refusal),
        Ok(()) => Ok(
            Command::new(
                RATE,
                vec![Value::Id(asset_id), Value::Id(identity_id), Value::Small(stars)],
            ),
        ),
    }
}

/// Whether this is a write of one identity's about one asset that the caller can see, or the refusal of one that they
/// cannot.
pub open spec fn gated(
    written: Result<Command, EngagementRefusal>,
    text: Seq<char>,
    asset_id: Uuid,
    found: Option<Uuid>,
    identity_id: Uuid,
) -> bool {
    match written {
        Ok(command) => found is Some && command.says(
            text,
            seq![Given::Id(identity_id), Given::Id(asset_id)],
        ),
        Err(refusal) => found is None && refusal == EngagementRefusal::UnknownAsset(asset_id),
    }
}

fn write(
    text: &'static str,
    asset_id: Uuid,
    found: Option<Uuid>,
    identity_id: Uuid,
) -> (written: Result<Command, EngagementRefusal>)
    ensures
        gated(written, text@, asset_id, found, identity_id),
{
    match check_visible(asset_id, found) {
        Err(refusal) => Err(refusal),
        Ok(()) => Ok(Command::new(text, vec![Value::Id(identity_id), Value::Id(asset_id)])),
    }
}

pub const UNRATE: &'static str = "DELETE FROM asset_ratings WHERE identity_id = $1 AND asset_id = $2";

/// Clears an identity's rating of an asset. Where there is none, nothing happens.
pub fn unrate(
    asset_id: Uuid,
    found: Option<Uuid>,
    identity_id: Uuid,
) -> (written: Result<Command, EngagementRefusal>)
    ensures
        gated(written, "DELETE FROM asset_ratings WHERE identity_id = $1 AND asset_id = $2"@, asset_id, found, identity_id),
{
    self::write(UNRATE, asset_id, found, identity_id)
}

pub const FAVOURITE: &'static str =
    "INSERT INTO asset_favourites (identity_id, asset_id) VALUES ($1, $2) ON CONFLICT (identity_id, \
     asset_id) DO NOTHING";

/// Puts an asset among an identity's favourites. Again is no second time.
pub fn favourite(
    asset_id: Uuid,
    found: Option<Uuid>,
    identity_id: Uuid,
) -> (written: Result<Command, EngagementRefusal>)
    ensures
        gated(written, "INSERT INTO asset_favourites (identity_id, asset_id) VALUES ($1, $2) ON CONFLICT (identity_id, \
             asset_id) DO NOTHING"@, asset_id, found, identity_id),
{
    self::write(FAVOURITE, asset_id, found, identity_id)
}

pub const UNFAVOURITE: &'static str =
    "DELETE FROM asset_favourites WHERE identity_id = $1 AND asset_id = $2";

/// Takes an asset from among them.
pub fn unfavourite(
    asset_id: Uuid,
    found: Option<Uuid>,
    identity_id: Uuid,
) -> (written: Result<Command, EngagementRefusal>)
    ensures
        gated(written, "DELETE FROM asset_favourites WHERE identity_id = $1 AND asset_id = $2"@, asset_id, found, identity_id),
{
    self::write(UNFAVOURITE, asset_id, found, identity_id)
}

pub const WATCH: &'static str =
    "INSERT INTO asset_watches (identity_id, asset_id) VALUES ($1, $2) ON CONFLICT (identity_id, asset_id) \
     DO NOTHING";

/// Watches an asset. Again is no second time.
pub fn watch(
    asset_id: Uuid,
    found: Option<Uuid>,
    identity_id: Uuid,
) -> (written: Result<Command, EngagementRefusal>)
    ensures
        gated(written, "INSERT INTO asset_watches (identity_id, asset_id) VALUES ($1, $2) ON CONFLICT (identity_id, asset_id) \
             DO NOTHING"@, asset_id, found, identity_id),
{
    self::write(WATCH, asset_id, found, identity_id)
}

pub const UNWATCH: &'static str = "DELETE FROM asset_watches WHERE identity_id = $1 AND asset_id = $2";

/// Stops watching it.
pub fn unwatch(
    asset_id: Uuid,
    found: Option<Uuid>,
    identity_id: Uuid,
) -> (written: Result<Command, EngagementRefusal>)
    ensures
        gated(written, "DELETE FROM asset_watches WHERE identity_id = $1 AND asset_id = $2"@, asset_id, found, identity_id),
{
    self::write(UNWATCH, asset_id, found, identity_id)
}

pub const WATCHERS: &'static str =
    "SELECT identity_id FROM asset_watches WHERE asset_id = $1 ORDER BY created_at, identity_id";

/// Who watches an asset.
pub fn watchers(asset_id: Uuid) -> (command: Command)
    ensures
        command.says(
            "SELECT identity_id FROM asset_watches WHERE asset_id = $1 ORDER BY created_at, identity_id"@,
            seq![Given::Id(asset_id)],
        ),
{
    Command::new(WATCHERS, vec![Value::Id(asset_id)])
}

} // verus!
