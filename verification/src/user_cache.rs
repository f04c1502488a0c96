//! The users that the bot has seen: who goes by which username, and how
//! each is shown.
//!
//! Usernames are kept in lower case. When a user takes a new username,
//! the old one no longer leads to them.

use vstd::prelude::*;
use dashmap::DashMap;
use crate::text::{chars_of, str_eq, string_of};

verus! {

/// `dashmap::DashMap`, a concurrent hash map. Nothing of its inside is
/// known here; what it holds is spoken of through `name_entries` and
/// `info_entries`.
#[verifier::external_type_specification]
#[verifier::external_body]
#[verifier::reject_recursive_types(K)]
#[verifier::reject_recursive_types(V)]
#[verifier::reject_recursive_types(S)]
pub struct ExDashMap<K, V, S>(DashMap<K, V, S>);

/// The entries of a map from username to user.
pub uninterp spec fn name_entries(map: DashMap<String, i64>) -> Map<Seq<char>, i64>;

/// The entries of a map from user to display name and username.
pub uninterp spec fn info_entries(map: DashMap<i64, (String, Option<String>)>) -> Map<
    i64,
    (Seq<char>, Option<Seq<char>>),
>;

/// The lower-case form of a text, as the standard library gives it.
pub uninterp spec fn lowercase(s: Seq<char>) -> Seq<char>;

/// The map from username to user that has no entry.
pub open spec fn no_names() -> Map<Seq<char>, i64> {
    Map::empty()
}

/// The map from user to names that has no entry.
pub open spec fn no_infos() -> Map<i64, (Seq<char>, Option<Seq<char>>)> {
    Map::empty()
}

/// The characters of a text, where there is one.
pub open spec fn opt_view(s: Option<String>) -> Option<Seq<char>> {
    match s {
        Some(t) => Some(t@),
        None => None,
    }
}

/// `str::to_lowercase` of the standard library. The result depends on
/// the text alone; the contract gives it its name.
#[verifier::external_body]
fn to_lowercase(s: &str) -> (lower: String)
    ensures
        lower@ == lowercase(s@),
{
    s.to_lowercase()
}

/// `DashMap::new`: a map without entries.
#[verifier::external_body]
fn new_names() -> (fresh: DashMap<String, i64>)
    ensures
        name_entries(fresh) == no_names(),
{
    DashMap::new()
}

/// `DashMap::new`: a map without entries.
#[verifier::external_body]
fn new_infos() -> (fresh: DashMap<i64, (String, Option<String>)>)
    ensures
        info_entries(fresh) == no_infos(),
{
    DashMap::new()
}

/// `DashMap::get`: the value under `key`, if the map has that key.
#[verifier::external_body]
fn name_get(map: &DashMap<String, i64>, key: &str) -> (value: Option<i64>)
    ensures
        value == if name_entries(*map).contains_key(key@) {
            Some(name_entries(*map)[key@])
        } else {
            None
        },
{
    match map.get(key) {
        Some(entry) => Some(*entry.value()),
        None => None,
    }
}

/// `DashMap::insert`: afterwards the map holds `value` under `key`, and
/// under every other key what it held before.
#[verifier::external_body]
fn name_insert(map: &mut DashMap<String, i64>, key: String, value: i64)
    ensures
        name_entries(*final(map)) == name_entries(*old(map)).insert(key@, value),
{
    map.insert(key, value);
}

/// `DashMap::remove`: afterwards the map has no entry under `key`, and
/// under every other key what it held before.
#[verifier::external_body]
fn name_remove(map: &mut DashMap<String, i64>, key: &str)
    ensures
        name_entries(*final(map)) == name_entries(*old(map)).remove(key@),
{
    map.remove(key);
}

/// `DashMap::get`: a copy of the value under `key`, if the map has that
/// key.
#[verifier::external_body]
fn info_get(map: &DashMap<i64, (String, Option<String>)>, key: i64) -> (value: Option<
    (String, Option<String>),
>)
    ensures
        match value {
            Some(v) => info_entries(*map).contains_key(key) && info_entries(*map)[key] == (
                v.0@,
                opt_view(v.1),
            ),
            None => !info_entries(*map).contains_key(key),
        },
{
    match map.get(&key) {
        Some(entry) => Some(entry.value().clone()),
        None => None,
    }
}

/// `DashMap::insert`: afterwards the map holds `value` under `key`, and
/// under every other key what it held before.
#[verifier::external_body]
fn info_insert(
    map: &mut DashMap<i64, (String, Option<String>)>,
    key: i64,
    value: (String, Option<String>),
)
    ensures
        info_entries(*final(map)) == info_entries(*old(map)).insert(
            key,
            (value.0@, opt_view(value.1)),
        ),
{
    map.insert(key, value);
}

/// The text `s` without the `c`s that it begins with.
pub open spec fn strip_leading(s: Seq<char>, c: char) -> Seq<char>
    decreases s.len(),
{
    if s.len() > 0 && s[0] == c {
        strip_leading(s.drop_first(), c)
    } else {
        s
    }
}

/// The usernames after a user was seen under `username`: the user's
/// former username is gone where it differs from the new one, and the
/// new one, where there is one, leads to the user.
pub open spec fn names_after(
    names: Map<Seq<char>, i64>,
    infos: Map<i64, (Seq<char>, Option<Seq<char>>)>,
    user_id: i64,
    username: Option<Seq<char>>,
) -> Map<Seq<char>, i64> {
    let former: Option<Seq<char>> = if infos.contains_key(user_id) {
        infos[user_id].1
    } else {
        None
    };
    let cleared = match former {
        Some(f) => if username is Some && lowercase(username->0) == lowercase(f) {
            names
        } else {
            names.remove(lowercase(f))
        },
        None => names,
    };
    match username {
        Some(u) => cleared.insert(lowercase(u), user_id),
        None => cleared,
    }
}

/// The users that the bot has seen.
pub struct UserCache {
    /// Lower-case username to user.
    name_to_id: DashMap<String, i64>,
    /// User to display name and username.
    id_to_info: DashMap<i64, (String, Option<String>)>,
}

impl UserCache {
    /// Which user each known username leads to; usernames in lower case.
    pub closed spec fn names(&self) -> Map<Seq<char>, i64> {
        name_entries(self.name_to_id)
    }

    /// The display name and the username of each known user.
    pub closed spec fn infos(&self) -> Map<i64, (Seq<char>, Option<Seq<char>>)> {
        info_entries(self.id_to_info)
    }

    /// A cache that knows nobody.
    pub fn new() -> (cache: Self)
        ensures
            cache.names() == no_names(),
            cache.infos() == no_infos(),
    {
        UserCache { name_to_id: new_names(), id_to_info: new_infos() }
    }

    /// Notes that the user `user_id` was seen under `username` and with
    /// the name `display_name`.
    pub fn update(&mut self, user_id: i64, username: Option<&str>, display_name: String)
        ensures
            final(self).names() == names_after(
                old(self).names(),
                old(self).infos(),
                user_id,
                match username {
                    Some(u) => Some(u@),
                    None => None,
                },
            ),
            final(self).infos() == old(self).infos().insert(
                user_id,
                (
                    display_name@,
                    match username {
                        Some(u) => Some(u@),
                        None => None,
                    },
                ),
            ),
    {
        let new_lower: Option<String> = match username {
            Some(u) => Some(to_lowercase(u)),
            None => None,
        };
        match info_get(&self.id_to_info, user_id) {
            Some((_, Some(former))) => {
                let old_lower = to_lowercase(former.as_str());
                let same = match &new_lower {
                    Some(n) => str_eq(n.as_str(), old_lower.as_str()),
                    None => false,
                };
                if !same {
                    name_remove(&mut self.name_to_id, old_lower.as_str());
                }
            },
            _ => {},
        }
        match new_lower {
            Some(n) => {
                name_insert(&mut self.name_to_id, n, user_id);
            },
            None => {},
        }
        let kept: Option<String> = match username {
            Some(u) => Some(string_of(&chars_of(u))),
            None => None,
        };
        info_insert(&mut self.id_to_info, user_id, (display_name, kept));
    }

    /// The user that goes by `username`, which may begin with `@` and
    /// may be in any case. `None` for a username never seen.
    pub fn resolve_username(&self, username: &str) -> (user_id: Option<i64>)
        ensures
            user_id == ({
                let key = lowercase(strip_leading(username@, '@'));
                if self.names().contains_key(key) {
                    Some(self.names()[key])
                } else {
                    None
                }
            }),
    {
        let chars = chars_of(username);
        let mut start: usize = 0;
        assert(chars@.skip(0) == chars@);
        while start < chars.len() && chars[start] == '@'
            invariant
                start <= chars.len(),
                strip_leading(chars@, '@') == strip_leading(chars@.skip(start as int), '@'),
            decreases chars.len() - start,
        {
            assert(chars@.skip(start as int)[0] == chars@[start as int]);
            assert(chars@.skip(start as int).drop_first() == chars@.skip(start + 1));
            start = start + 1;
        }
        assert(strip_leading(chars@, '@') == chars@.skip(start as int)) by {
            if start < chars.len() {
                assert(chars@.skip(start as int)[0] == chars@[start as int]);
            }
        }
        let mut clean: Vec<char> = Vec::new();
        let mut i: usize = start;
        while i < chars.len()
            invariant
                start <= i <= chars.len(),
                clean@ == chars@.subrange(start as int, i as int),
            decreases chars.len() - i,
        {
            clean.push(chars[i]);
            i = i + 1;
            assert(clean@ =~= chars@.subrange(start as int, i as int));
        }
        assert(clean@ =~= chars@.skip(start as int));
        let key = to_lowercase(string_of(&clean).as_str());
        name_get(&self.name_to_id, key.as_str())
    }

    /// The display name of the user `user_id`. `None` for a user never
    /// seen.
    pub fn get_display_name(&self, user_id: i64) -> (name: Option<String>)
        ensures
            match name {
                Some(n) => self.infos().contains_key(user_id) && self.infos()[user_id].0 == n@,
                None => !self.infos().contains_key(user_id),
            },
    {
        match info_get(&self.id_to_info, user_id) {
            Some((display_name, _)) => Some(display_name),
            None => None,
        }
    }
}

} // verus!
