//! The users of a session, kept in ascending order of their persistent id.

use crate::search::first_where;
use crate::search::lemma_first_where;
use crate::heatmap_analyser::Team;
use crate::heatmap_analyser::UserId;
use crate::protocol::EntityId;
use crate::text::parse_u32;
use crate::text::spec_parse_unsigned;
use crate::text::str_eq;
use crate::text::trim_trailing_nuls;
use crate::text::utf8_text;
use crate::text::without_trailing_nuls;
use vstd::slice::slice_subrange;
use vstd::utf8::decode_utf8;
use vstd::utf8::valid_utf8;
use vstd::prelude::*;

verus! {

/// The persistent identity of one user.
///
/// The name may change during a session; the ids stay. A user who is spectating, or who has
/// not spawned yet, is bound to no entity.
#[derive(Debug, Clone)]
pub struct UserInfo {
    pub name: String,
    pub user_id: UserId,
    pub steam_id: String,
    pub entity_id: Option<EntityId>,
    pub team: Team,
}

impl PartialEq for UserInfo {
    /// Two records are equal when they agree on everything but the bound entity.
    fn eq(&self, other: &UserInfo) -> (same: bool) {
        self.name == other.name && self.user_id.0 == other.user_id.0 && self.steam_id
            == other.steam_id && self.team == other.team
    }
}

impl vstd::std_specs::cmp::PartialEqSpecImpl for UserInfo {
    open spec fn obeys_eq_spec() -> bool {
        true
    }

    open spec fn eq_spec(&self, other: &UserInfo) -> bool {
        self.name@ == other.name@ && self.user_id.0 == other.user_id.0 && self.steam_id@
            == other.steam_id@ && self.team == other.team
    }
}

/// Whether a record is the record of `id`.
pub open spec fn is_user(id: UserId) -> spec_fn(UserInfo) -> bool {
    |info: UserInfo| info.user_id == id
}

/// Whether the id of a record is not below `id`.
pub open spec fn not_below(id: UserId) -> spec_fn(UserInfo) -> bool {
    |info: UserInfo| info.user_id.0 >= id.0
}

/// Whether `users` holds a record for `id`.
pub open spec fn has_user(users: Seq<UserInfo>, id: UserId) -> bool {
    first_where(users, is_user(id)) is Some
}

/// The position of the first record for `id` in `users`; meaningful where `has_user` holds.
pub open spec fn user_index(users: Seq<UserInfo>, id: UserId) -> int {
    first_where(users, is_user(id))->0
}

/// Whether the ids of `users` strictly ascend.
pub open spec fn ids_ascend(users: Seq<UserInfo>) -> bool {
    forall|i: int, j: int|
        0 <= i < j < users.len() ==> (#[trigger] users[i]).user_id.0 < (#[trigger] users[j]).user_id.0
}

/// Where a record for `id` belongs in `users`: before the first record whose id is not below
/// `id`, or at the end.
pub open spec fn rank_of(users: Seq<UserInfo>, id: UserId) -> int {
    match first_where(users, not_below(id)) {
        Some(k) => k,
        None => users.len() as int,
    }
}

/// Whether a record bears the name `name`.
pub open spec fn is_named(name: Seq<char>) -> spec_fn(UserInfo) -> bool {
    |info: UserInfo| info.name@ == name
}

/// The position of the first record in `users` whose name is `name`.
pub open spec fn first_named(users: Seq<UserInfo>, name: Seq<char>) -> Option<int> {
    first_where(users, is_named(name))
}

/// What `has_user` and `user_index` mean: the record found is one of `id`, and no record of
/// `id` stands before it.
pub proof fn lemma_user_index(users: Seq<UserInfo>, id: UserId)
    ensures
        has_user(users, id) ==> 0 <= user_index(users, id) < users.len() && users[user_index(
            users,
            id,
        )].user_id == id,
        !has_user(users, id) ==> forall|i: int|
            0 <= i < users.len() ==> (#[trigger] users[i]).user_id != id,
        forall|i: int|
            0 <= i < users.len() && (#[trigger] users[i]).user_id == id ==> has_user(users, id)
                && user_index(users, id) <= i,
{
    lemma_first_where(users, is_user(id));
    assert forall|i: int| 0 <= i < users.len() && (#[trigger] users[i]).user_id == id implies has_user(
        users,
        id,
    ) && user_index(users, id) <= i by {
        assert(is_user(id)(users[i]));
    }
}

/// Changing a record without touching its id changes neither which users are known nor
/// where their records stand, and keeps the ids ascending.
pub proof fn lemma_update_keeps_ids(users: Seq<UserInfo>, i: int, info: UserInfo, id: UserId)
    requires
        0 <= i < users.len(),
        info.user_id == users[i].user_id,
    ensures
        first_where(users.update(i, info), is_user(id)) == first_where(users, is_user(id)),
        ids_ascend(users) ==> ids_ascend(users.update(i, info)),
{
    let after = users.update(i, info);
    lemma_first_where(users, is_user(id));
    lemma_first_where(after, is_user(id));
    match first_where(users, is_user(id)) {
        Some(k) => {
            assert(is_user(id)(after[k]));
            let k2 = first_where(after, is_user(id))->0;
            assert(is_user(id)(users[k2]));
        },
        None => {
            if first_where(after, is_user(id)) is Some {
                let k2 = first_where(after, is_user(id))->0;
                assert(is_user(id)(users[k2]));
            }
        },
    }
    if ids_ascend(users) {
        assert forall|a: int, b: int| 0 <= a < b < after.len() implies (#[trigger] after[a]).user_id.0
            < (#[trigger] after[b]).user_id.0 by {
            assert(users[a].user_id.0 < users[b].user_id.0);
        }
    }
}

/// Adding the record of an unknown user where it belongs keeps the ids ascending, and keeps
/// the first record first unless the new id is the least.
pub proof fn lemma_insert_at_rank(users: Seq<UserInfo>, info: UserInfo)
    requires
        ids_ascend(users),
        !has_user(users, info.user_id),
    ensures
        ids_ascend(users.insert(rank_of(users, info.user_id), info)),
        0 <= rank_of(users, info.user_id) <= users.len(),
        users.len() > 0 && users[0].user_id.0 < info.user_id.0 ==> rank_of(users, info.user_id)
            > 0,
{
    let id = info.user_id;
    let k = rank_of(users, id);
    lemma_first_where(users, not_below(id));
    lemma_user_index(users, id);
    let after = users.insert(k, info);
    assert forall|a: int, b: int| 0 <= a < b < after.len() implies (#[trigger] after[a]).user_id.0
        < (#[trigger] after[b]).user_id.0 by {
        if b < k {
            assert(users[a].user_id.0 < users[b].user_id.0);
        } else if b == k {
            assert(!not_below(id)(users[a]));
        } else if a == k {
            assert(users[b - 1].user_id != id);
            if first_where(users, not_below(id)) is Some {
                assert(not_below(id)(users[k]));
                if b - 1 > k {
                    assert(users[k].user_id.0 < users[b - 1].user_id.0);
                }
            }
        } else if a < k {
            assert(users[a].user_id.0 < users[b - 1].user_id.0);
        } else {
            assert(users[a - 1].user_id.0 < users[b - 1].user_id.0);
        }
    }
    if users.len() > 0 && users[0].user_id.0 < id.0 {
        if k == 0 {
            assert(not_below(id)(users[0]));
        }
    }
}

/// Why a record of the stream's user table could not be read.
#[derive(Debug, Clone, Copy, PartialEq, Eq, Structural, Hash)]
pub enum UserInfoError {
    /// The record ends before the user id does.
    Truncated,
    /// The player identifier is not well-formed UTF-8.
    MalformedIdentifier,
    /// The entry's text, which must give the player's slot, is not a slot number.
    MalformedSlot,
}

/// The length of the name field that opens a user record.
pub const NAME_FIELD_LEN: usize = 32;

/// What a user record of the stream's user table says.
#[derive(Debug, Clone, PartialEq, Eq)]
pub struct UserRecord {
    pub name: String,
    pub user_id: u32,
    pub steam_id: String,
}

/// The little-endian number in the four bytes of `bytes` from `at` on.
pub open spec fn le_u32_at(bytes: Seq<u8>, at: int) -> u32 {
    (bytes[at] as u32 + bytes[at + 1] as u32 * 0x100 + bytes[at + 2] as u32 * 0x1_0000 + bytes[at
        + 3] as u32 * 0x100_0000) as u32
}

/// The bytes of `bytes` before its first zero byte, or all of them where none is zero.
pub open spec fn until_nul(bytes: Seq<u8>) -> Seq<u8>
    decreases bytes.len(),
{
    if bytes.len() == 0 || bytes[0] == 0 {
        Seq::<u8>::empty()
    } else {
        seq![bytes[0]] + until_nul(bytes.skip(1))
    }
}

/// The name a record gives: the text of its name field without the padding at its end. A
/// record too short to hold the field, or whose field is not UTF-8, gives a stand-in.
pub open spec fn record_name(bytes: Seq<u8>) -> Seq<char> {
    if bytes.len() >= NAME_FIELD_LEN && valid_utf8(bytes.take(NAME_FIELD_LEN as int)) {
        without_trailing_nuls(decode_utf8(bytes.take(NAME_FIELD_LEN as int)))
    } else {
        "Malformed Name"@
    }
}

/// Where the user id of a record starts: behind the name field, or at the very start of a
/// record too short to hold that field.
pub open spec fn record_id_offset(bytes: Seq<u8>) -> int {
    if bytes.len() >= NAME_FIELD_LEN {
        NAME_FIELD_LEN as int
    } else {
        0
    }
}

/// What the bytes of a user record say: the name field, then the user id as a little-endian
/// number of four bytes, then the player identifier up to a zero byte. The result holds the
/// name, the user id and the player identifier.
pub open spec fn spec_user_record(bytes: Seq<u8>) -> Result<
    (Seq<char>, u32, Seq<char>),
    UserInfoError,
> {
    let at = record_id_offset(bytes);
    if bytes.len() < at + 4 {
        Err(UserInfoError::Truncated)
    } else if !valid_utf8(until_nul(bytes.skip(at + 4))) {
        Err(UserInfoError::MalformedIdentifier)
    } else {
        Ok((record_name(bytes), le_u32_at(bytes, at), decode_utf8(until_nul(bytes.skip(at + 4)))))
    }
}

/// Whether `record` holds what `fields` says.
pub open spec fn reads_as(
    fields: Result<(Seq<char>, u32, Seq<char>), UserInfoError>,
    record: Result<UserRecord, UserInfoError>,
) -> bool {
    match (fields, record) {
        (Ok(f), Ok(r)) => r.name@ == f.0 && r.user_id == f.1 && r.steam_id@ == f.2,
        (Err(e), Err(got)) => e == got,
        _ => false,
    }
}

/// Reads one record of the stream's user table.
pub fn read_user_record(bytes: &[u8]) -> (record: Result<UserRecord, UserInfoError>)
    ensures
        reads_as(spec_user_record(bytes@), record),
{
    let (name, at): (String, usize) = if bytes.len() >= NAME_FIELD_LEN {
        let field = slice_subrange(bytes, 0, NAME_FIELD_LEN);
        assert(field@ =~= bytes@.take(NAME_FIELD_LEN as int));
        match utf8_text(field) {
            Some(text) => (trim_trailing_nuls(text).to_owned(), NAME_FIELD_LEN),
            None => ("Malformed Name".to_owned(), NAME_FIELD_LEN),
        }
    } else {
        ("Malformed Name".to_owned(), 0)
    };
    if bytes.len() - at < 4 {
        return Err(UserInfoError::Truncated);
    }
    let user_id: u32 = bytes[at] as u32 + bytes[at + 1] as u32 * 0x100 + bytes[at + 2] as u32
        * 0x1_0000 + bytes[at + 3] as u32 * 0x100_0000;
    let start = at + 4;
    let mut end = start;
    while end < bytes.len() && bytes[end] != 0
        invariant
            start <= end <= bytes.len(),
            until_nul(bytes@.skip(start as int)) == bytes@.subrange(start as int, end as int)
                + until_nul(bytes@.skip(end as int)),
        decreases bytes.len() - end,
    {
        proof {
            let rest = bytes@.skip(end as int);
            assert(rest.skip(1) =~= bytes@.skip(end + 1));
            assert(bytes@.subrange(start as int, end as int) + seq![rest[0]] =~= bytes@.subrange(
                start as int,
                end + 1,
            ));
            assert(bytes@.subrange(start as int, end as int) + (seq![rest[0]] + until_nul(
                rest.skip(1),
            )) =~= (bytes@.subrange(start as int, end as int) + seq![rest[0]]) + until_nul(
                rest.skip(1),
            ));
        }
        end += 1;
    }
    let field = slice_subrange(bytes, start, end);
    assert(field@ =~= until_nul(bytes@.skip(start as int))) by {
        assert(until_nul(bytes@.skip(end as int)) =~= Seq::<u8>::empty());
    }
    match utf8_text(field) {
        Some(text) => Ok(UserRecord { name, user_id, steam_id: text.to_owned() }),
        None => Err(UserInfoError::MalformedIdentifier),
    }
}

/// The entity that the player in the slot written in `text` is bound to: the slot plus one.
/// No text means no binding; text that is no slot number, or whose slot has no successor in
/// 32 bits, is an error.
pub open spec fn slot_entity(text: Option<Seq<char>>) -> Result<Option<EntityId>, UserInfoError> {
    match text {
        None => Ok(None),
        Some(t) => match spec_parse_unsigned(t, u32::MAX as nat) {
            Some(slot) => if slot < u32::MAX {
                Ok(Some((slot + 1) as u32))
            } else {
                Err(UserInfoError::MalformedSlot)
            },
            None => Err(UserInfoError::MalformedSlot),
        },
    }
}

/// Whether `after` is `before` with the user `user_id` recorded as seen in the stream.
///
/// A user already known keeps everything but the bound entity, which changes only where
/// `entity_id` names one. A new user stands, on no team, where the ids keep ascending.
pub open spec fn upserted(
    before: Seq<UserInfo>,
    after: Seq<UserInfo>,
    user_id: UserId,
    name: Seq<char>,
    steam_id: Seq<char>,
    entity_id: Option<EntityId>,
) -> bool {
    if has_user(before, user_id) {
        let i = user_index(before, user_id);
        after == before.update(
            i,
            UserInfo {
                entity_id: if entity_id is Some {
                    entity_id
                } else {
                    before[i].entity_id
                },
                ..before[i]
            },
        )
    } else {
        let k = rank_of(before, user_id);
        &&& after.len() == before.len() + 1
        &&& 0 <= k < after.len()
        &&& after.remove(k) == before
        &&& after[k].name@ == name
        &&& after[k].user_id == user_id
        &&& after[k].steam_id@ == steam_id
        &&& after[k].entity_id == entity_id
        &&& after[k].team == Team::Other
    }
}

/// Whether taking in an entry of the stream's user table led from `before` to `after` and
/// ended as `done`.
pub open spec fn user_info_recorded(
    before: Seq<UserInfo>,
    after: Seq<UserInfo>,
    text: Option<Seq<char>>,
    data: Option<Seq<u8>>,
    done: Result<(), UserInfoError>,
) -> bool {
    match data {
        None => done is Ok && after == before,
        Some(bytes) => match spec_user_record(bytes) {
            Err(e) => done == Err::<(), UserInfoError>(e) && after == before,
            Ok(fields) => match slot_entity(text) {
                Err(e) => done == Err::<(), UserInfoError>(e) && after == before,
                Ok(entity_id) => {
                    &&& done is Ok
                    &&& if fields.2.len() == 0 {
                        after == before
                    } else {
                        upserted(before, after, UserId(fields.1), fields.0, fields.2, entity_id)
                    }
                },
            },
        },
    }
}

/// The users of a session.
#[derive(Debug, Clone, PartialEq)]
pub struct UserTable {
    entries: Vec<UserInfo>,
}

impl UserTable {
    /// The records, in ascending order of id.
    pub closed spec fn view(&self) -> Seq<UserInfo> {
        self.entries@
    }

    /// The ids of the records strictly ascend, so no id occurs twice.
    pub open spec fn wf(&self) -> bool {
        ids_ascend(self@)
    }

    /// A table without users.
    pub fn new() -> (table: UserTable)
        ensures
            table@ == Seq::<UserInfo>::empty(),
            table.wf(),
    {
        UserTable { entries: Vec::new() }
    }

    /// The records, in ascending order of id.
    pub fn entries(&self) -> (entries: &Vec<UserInfo>)
        ensures
            entries@ == self@,
    {
        &self.entries
    }

    /// The number of users.
    pub fn len(&self) -> (n: usize)
        ensures
            n == self@.len(),
    {
        self.entries.len()
    }

    /// The position of the record for `id`, if there is one.
    pub fn find(&self, id: UserId) -> (found: Option<usize>)
        ensures
            match found {
                Some(i) => has_user(self@, id) && user_index(self@, id) == i && i < self@.len(),
                None => !has_user(self@, id),
            },
    {
        let mut i: usize = 0;
        while i < self.entries.len()
            invariant
                i <= self.entries.len(),
                forall|j: int| 0 <= j < i ==> !is_user(id)(#[trigger] self.entries@[j]),
            decreases self.entries.len() - i,
        {
            if self.entries[i].user_id.0 == id.0 {
                proof {
                    lemma_first_where(self@, is_user(id));
                    assert(is_user(id)(self@[i as int]));
                }
                return Some(i);
            }
            i += 1;
        }
        proof {
            lemma_first_where(self@, is_user(id));
            if has_user(self@, id) {
                assert(is_user(id)(self@[user_index(self@, id)]));
            }
        }
        None
    }

    /// The record for `id`, if there is one.
    pub fn get(&self, id: UserId) -> (found: Option<&UserInfo>)
        ensures
            match found {
                Some(info) => has_user(self@, id) && *info == self@[user_index(self@, id)],
                None => !has_user(self@, id),
            },
    {
        match self.find(id) {
            Some(i) => Some(&self.entries[i]),
            None => None,
        }
    }

    /// Puts the user at position `index` on `team`.
    pub fn set_team_at(&mut self, index: usize, team: Team)
        requires
            index < old(self)@.len(),
        ensures
            final(self)@ == old(self)@.update(
                index as int,
                UserInfo { team, ..old(self)@[index as int] },
            ),
            old(self).wf() ==> final(self).wf(),
    {
        self.entries[index].team = team;
        proof {
            lemma_update_keeps_ids(old(self)@, index as int, self@[index as int], UserId(0));
        }
    }

    /// Binds the user at position `index` to `entity_id`.
    pub fn set_entity_at(&mut self, index: usize, entity_id: Option<EntityId>)
        requires
            index < old(self)@.len(),
        ensures
            final(self)@ == old(self)@.update(
                index as int,
                UserInfo { entity_id, ..old(self)@[index as int] },
            ),
            old(self).wf() ==> final(self).wf(),
    {
        self.entries[index].entity_id = entity_id;
        proof {
            lemma_update_keeps_ids(old(self)@, index as int, self@[index as int], UserId(0));
        }
    }

    /// Records `user_id` as seen in the user table of the stream.
    ///
    /// A user already known keeps everything but the bound entity, which changes only where
    /// `entity_id` names one. A new user is added on no team, at the position that keeps the
    /// ids ascending.
    pub fn upsert(
        &mut self,
        user_id: UserId,
        name: String,
        steam_id: String,
        entity_id: Option<EntityId>,
    )
        ensures
            old(self).wf() ==> final(self).wf(),
            has_user(old(self)@, user_id) ==> final(self)@ == old(self)@.update(
                user_index(old(self)@, user_id),
                UserInfo {
                    entity_id: if entity_id is Some {
                        entity_id
                    } else {
                        old(self)@[user_index(old(self)@, user_id)].entity_id
                    },
                    ..old(self)@[user_index(old(self)@, user_id)]
                },
            ),
            !has_user(old(self)@, user_id) ==> final(self)@ == old(self)@.insert(
                rank_of(old(self)@, user_id),
                UserInfo { name, user_id, steam_id, entity_id, team: Team::Other },
            ),
    {
        match self.find(user_id) {
            Some(i) => {
                if entity_id.is_some() {
                    self.entries[i].entity_id = entity_id;
                } else {
                    assert(self@ =~= old(self)@.update(i as int, old(self)@[i as int]));
                }
                proof {
                    lemma_update_keeps_ids(old(self)@, i as int, self@[i as int], user_id);
                }
            },
            None => {
                let mut k: usize = 0;
                while k < self.entries.len() && self.entries[k].user_id.0 < user_id.0
                    invariant
                        k <= self.entries.len(),
                        self.entries@ == old(self)@,
                        forall|j: int| 0 <= j < k ==> !not_below(user_id)(#[trigger] self.entries@[j]),
                    decreases self.entries.len() - k,
                {
                    k += 1;
                }
                let info = UserInfo { name, user_id, steam_id, entity_id, team: Team::Other };
                proof {
                    lemma_first_where(self@, not_below(user_id));
                    if k < self@.len() {
                        assert(not_below(user_id)(self@[k as int]));
                    }
                    assert(rank_of(self@, user_id) == k);
                    if self.wf() {
                        lemma_insert_at_rank(self@, info);
                    }
                }
                self.entries.insert(k, info);
            },
        }
    }

    /// Takes in one entry of the stream's user table: `data` is the user's record, `text`
    /// the slot the user plays in.
    ///
    /// An entry without a record, or whose record names no player identifier, changes
    /// nothing. Neither does an entry that cannot be read, which is reported. Any other
    /// entry is recorded as `upsert` says, bound to the entity of its slot.
    pub fn record_user_info(&mut self, text: Option<&str>, data: Option<&[u8]>) -> (done: Result<
        (),
        UserInfoError,
    >)
        ensures
            old(self).wf() ==> final(self).wf(),
            user_info_recorded(
                old(self)@,
                final(self)@,
                match text {
                    Some(t) => Some(t@),
                    None => None,
                },
                match data {
                    Some(d) => Some(d@),
                    None => None,
                },
                done,
            ),
    {
        let bytes = match data {
            Some(bytes) => bytes,
            None => {
                return Ok(());
            },
        };
        let record = match read_user_record(bytes) {
            Ok(record) => record,
            Err(e) => {
                return Err(e);
            },
        };
        let entity_id: Option<EntityId> = match text {
            Some(slot_text) => match parse_u32(slot_text) {
                Some(slot) => {
                    if slot == u32::MAX {
                        return Err(UserInfoError::MalformedSlot);
                    }
                    Some(slot + 1)
                },
                None => {
                    return Err(UserInfoError::MalformedSlot);
                },
            },
            None => None,
        };
        if !record.steam_id.as_str().is_empty() {
            let ghost rank = rank_of(self@, UserId(record.user_id));
            proof {
                lemma_first_where(self@, not_below(UserId(record.user_id)));
            }
            self.upsert(UserId(record.user_id), record.name, record.steam_id, entity_id);
            proof {
                if !has_user(old(self)@, UserId(record.user_id)) {
                    assert(self@.remove(rank) =~= old(self)@);
                }
            }
        }
        Ok(())
    }

    /// Renames the first user, in ascending order of id, whose name is `from`. Where several
    /// users share that name the others keep it; where none has it nothing changes.
    pub fn rename(&mut self, from: &str, to: String)
        ensures
            final(self)@ == (match first_named(old(self)@, from@) {
                Some(i) => old(self)@.update(i, UserInfo { name: to, ..old(self)@[i] }),
                None => old(self)@,
            }),
            old(self).wf() ==> final(self).wf(),
    {
        let mut i: usize = 0;
        while i < self.entries.len()
            invariant
                i <= self.entries.len(),
                self.entries@ == old(self)@,
                forall|j: int| 0 <= j < i ==> !is_named(from@)(#[trigger] self.entries@[j]),
            decreases self.entries.len() - i,
        {
            if str_eq(self.entries[i].name.as_str(), from) {
                proof {
                    lemma_first_where(self@, is_named(from@));
                    assert(is_named(from@)(self@[i as int]));
                }
                self.entries[i].name = to;
                return ;
            }
            i += 1;
        }
        proof {
            lemma_first_where(self@, is_named(from@));
        }
    }
}

} // verus!
