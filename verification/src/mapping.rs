//! How the provider's documents are read: users, roles, the mark of a deleted
//! role, and the session of a login.

use vstd::prelude::*;

use crate::dtos::{
    views, GetRoleRes, GetRoleResView, GetUserRes, GetUserResView, LoginResKeycloak,
    LoginResKeycloakView,
};
use crate::json::{item_views, lemma_array_view, Json, JsonView};
use crate::text::{ascii_folded, same_text, same_text_ignoring_ascii_case};

verus! {

/// The texts of a list of names.
pub open spec fn names_view(names: Seq<&str>) -> Seq<Seq<char>> {
    Seq::new(names.len(), |i: int| names[i]@)
}

/// The field of the first of the names, in their order, that the document has.
pub open spec fn first_present(doc: JsonView, names: Seq<Seq<char>>) -> Option<JsonView>
    decreases names.len(),
{
    if names.len() == 0 {
        None
    } else {
        match doc.field(names[0]) {
            Some(value) => Some(value),
            None => first_present(doc, names.drop_first()),
        }
    }
}

/// The text of the first of the names, in their order, under which the document
/// holds a text.
pub open spec fn first_text(doc: JsonView, names: Seq<Seq<char>>) -> Option<Seq<char>>
    decreases names.len(),
{
    if names.len() == 0 {
        None
    } else {
        match doc.field(names[0]) {
            Some(JsonView::Text(s)) => Some(s),
            _ => first_text(doc, names.drop_first()),
        }
    }
}

/// The text of a value; empty where there is none or it is no text.
pub open spec fn text_or_empty(value: Option<JsonView>) -> Seq<char> {
    match value {
        Some(JsonView::Text(s)) => s,
        _ => Seq::empty(),
    }
}

/// The names under which the user name may come.
pub open spec fn username_names() -> Seq<Seq<char>> {
    seq!["username"@, "email"@]
}

/// The names under which the first name may come.
pub open spec fn first_name_names() -> Seq<Seq<char>> {
    seq!["firstName"@, "first-name"@, "first_name"@]
}

/// The names under which the last name may come.
pub open spec fn last_name_names() -> Seq<Seq<char>> {
    seq!["lastName"@, "last-name"@, "last_name"@]
}

/// The user that a document of the provider stands for. The user name is the
/// first text among its names; a first or last name is what stands under the
/// first of its names that the document has. A field that is missing or holds
/// no text is empty, and a user without the field `enabled` is not enabled.
pub open spec fn user_of(doc: JsonView) -> GetUserResView {
    GetUserResView {
        id: doc.text_at("id"@, Seq::empty()),
        username: match first_text(doc, username_names()) {
            Some(s) => s,
            None => Seq::empty(),
        },
        first_name: text_or_empty(first_present(doc, first_name_names())),
        last_name: text_or_empty(first_present(doc, last_name_names())),
        enabled: doc.truth_at("enabled"@, false),
    }
}

/// The role that a document of the provider stands for; a field that is missing
/// is empty.
pub open spec fn role_of(doc: JsonView) -> GetRoleResView {
    GetRoleResView {
        id: doc.text_at("id"@, Seq::empty()),
        name: doc.text_at("name"@, Seq::empty()),
        description: doc.text_at("description"@, Seq::empty()),
    }
}

/// Whether a value says yes: the truth value `true`, the text `true` in any
/// mix of capitals and small letters, or the text `1`.
pub open spec fn truthy(value: JsonView) -> bool {
    match value {
        JsonView::Bool(b) => b,
        JsonView::Text(s) => ascii_folded(s) == ascii_folded("true"@) || s == "1"@,
        _ => false,
    }
}

/// Whether one of the values says yes.
pub open spec fn any_truthy(items: Seq<JsonView>) -> bool {
    exists|i: int| 0 <= i < items.len() && truthy(#[trigger] items[i])
}

/// Whether a role is marked as deleted: its `attributes` hold, under `deleted`,
/// a value that says yes, or a list with such a value in it.
pub open spec fn marked_deleted(doc: JsonView) -> bool {
    match doc.field("attributes"@) {
        Some(attributes) => match attributes.field("deleted"@) {
            Some(JsonView::Array(items)) => any_truthy(items),
            Some(value) => truthy(value),
            None => false,
        },
        None => false,
    }
}

/// Looks the names up in their order; the first field that the document has.
pub fn find_first<'a>(doc: &'a Json, names: &[&str]) -> (r: Option<&'a Json>)
    ensures
        match r {
            Some(found) => first_present(doc@, names_view(names@)) == Some(found@),
            None => first_present(doc@, names_view(names@)) is None,
        },
{
    let ghost all = names_view(names@);
    assert(all.skip(0) == all);
    let mut i: usize = 0;
    while i < names.len()
        invariant
            0 <= i <= names.len(),
            all == names_view(names@),
            first_present(doc@, all) == first_present(doc@, all.skip(i as int)),
        decreases names.len() - i,
    {
        proof {
            assert(all.skip(i as int)[0] == names@[i as int]@);
            assert(all.skip(i as int).drop_first() == all.skip(i + 1));
        }
        match doc.get(names[i]) {
            Some(found) => {
                return Some(found);
            },
            None => {},
        }
        i = i + 1;
    }
    None
}

/// Looks the names up in their order; the first text that the document holds
/// under one of them.
pub fn find_first_text<'a>(doc: &'a Json, names: &[&str]) -> (r: Option<&'a str>)
    ensures
        r.deep_view() == first_text(doc@, names_view(names@)),
{
    let ghost all = names_view(names@);
    assert(all.skip(0) == all);
    let mut i: usize = 0;
    while i < names.len()
        invariant
            0 <= i <= names.len(),
            all == names_view(names@),
            first_text(doc@, all) == first_text(doc@, all.skip(i as int)),
        decreases names.len() - i,
    {
        proof {
            assert(all.skip(i as int)[0] == names@[i as int]@);
            assert(all.skip(i as int).drop_first() == all.skip(i + 1));
        }
        match doc.get(names[i]) {
            Some(Json::Text(s)) => {
                return Some(s.as_str());
            },
            _ => {},
        }
        i = i + 1;
    }
    None
}

fn owned_text(value: Option<&Json>) -> (r: String)
    ensures
        r@ == text_or_empty(
            match value {
                Some(found) => Some(found@),
                None => None,
            },
        ),
{
    match value {
        Some(Json::Text(s)) => s.clone(),
        _ => String::new(),
    }
}

/// Reads a user from a document of the provider.
pub fn user_from_json(doc: &Json) -> (user: GetUserRes)
    ensures
        user@ == user_of(doc@),
{
    proof {
        reveal_strlit("");
        assert(""@ =~= Seq::<char>::empty());
    }
    let usernames = ["username", "email"];
    let first_names = ["firstName", "first-name", "first_name"];
    let last_names = ["lastName", "last-name", "last_name"];
    proof {
        assert(names_view(usernames@) =~= username_names());
        assert(names_view(first_names@) =~= first_name_names());
        assert(names_view(last_names@) =~= last_name_names());
    }
    GetUserRes {
        id: doc.text_at("id", ""),
        username: match find_first_text(doc, &usernames) {
            Some(s) => s.to_owned(),
            None => String::new(),
        },
        first_name: owned_text(find_first(doc, &first_names)),
        last_name: owned_text(find_first(doc, &last_names)),
        enabled: doc.truth_at("enabled", false),
    }
}

/// Reads a role from a document of the provider.
pub fn role_from_json(doc: &Json) -> (role: GetRoleRes)
    ensures
        role@ == role_of(doc@),
{
    proof {
        reveal_strlit("");
        assert(""@ =~= Seq::<char>::empty());
    }
    GetRoleRes {
        id: doc.text_at("id", ""),
        name: doc.text_at("name", ""),
        description: doc.text_at("description", ""),
    }
}

/// Whether a value says yes.
pub fn is_truthy(value: &Json) -> (b: bool)
    ensures
        b == truthy(value@),
{
    match value {
        Json::Bool(b) => *b,
        Json::Text(s) => same_text_ignoring_ascii_case(s.as_str(), "true") || same_text(
            s.as_str(),
            "1",
        ),
        _ => false,
    }
}

fn has_truthy(items: &Vec<Json>) -> (b: bool)
    ensures
        b == any_truthy(item_views(items@)),
{
    let mut i: usize = 0;
    while i < items.len()
        invariant
            0 <= i <= items.len(),
            forall|j: int| 0 <= j < i ==> !truthy(#[trigger] item_views(items@)[j]),
        decreases items.len() - i,
    {
        if is_truthy(&items[i]) {
            assert(truthy(item_views(items@)[i as int]));
            return true;
        }
        i = i + 1;
    }
    false
}

/// Whether a role is marked as deleted.
pub fn is_marked_deleted(doc: &Json) -> (b: bool)
    ensures
        b == marked_deleted(doc@),
{
    match doc.get("attributes") {
        Some(attributes) => match attributes.get("deleted") {
            Some(Json::Array(items)) => {
                proof {
                    lemma_array_view(*items);
                }
                has_truthy(items)
            },
            Some(value) => is_truthy(value),
            None => false,
        },
        None => false,
    }
}

/// The users that a list of the provider stands for, `None` where the document
/// is no list.
pub open spec fn users_of(doc: JsonView) -> Option<Seq<GetUserResView>> {
    match doc {
        JsonView::Array(items) => Some(Seq::new(items.len(), |i: int| user_of(items[i]))),
        _ => None,
    }
}

/// Reads the users from a list of the provider.
pub fn users_from_json(doc: &Json) -> (r: Option<Vec<GetUserRes>>)
    ensures
        match r {
            Some(users) => users_of(doc@) == Some(views(users@)),
            None => users_of(doc@) is None,
        },
{
    match doc {
        Json::Array(items) => {
            proof {
                lemma_array_view(*items);
            }
            let mut users: Vec<GetUserRes> = Vec::new();
            let mut i: usize = 0;
            while i < items.len()
                invariant
                    0 <= i <= items.len(),
                    users.len() == i,
                    forall|j: int| 0 <= j < i ==> (#[trigger] users[j])@ == user_of(items[j]@),
                decreases items.len() - i,
            {
                users.push(user_from_json(&items[i]));
                i = i + 1;
            }
            assert(views(users@) =~= Seq::new(
                item_views(items@).len(),
                |i: int| user_of(item_views(items@)[i]),
            ));
            Some(users)
        },
        _ => None,
    }
}

/// The roles among the documents that are not marked as deleted, in their order.
pub open spec fn visible_roles(items: Seq<JsonView>) -> Seq<GetRoleResView>
    decreases items.len(),
{
    if items.len() == 0 {
        Seq::empty()
    } else if marked_deleted(items.last()) {
        visible_roles(items.drop_last())
    } else {
        visible_roles(items.drop_last()).push(role_of(items.last()))
    }
}

/// The roles that a list of the provider stands for, those marked as deleted
/// left out; `None` where the document is no list.
pub open spec fn roles_of(doc: JsonView) -> Option<Seq<GetRoleResView>> {
    match doc {
        JsonView::Array(items) => Some(visible_roles(items)),
        _ => None,
    }
}

/// Reads the roles from a list of the provider.
pub fn roles_from_json(doc: &Json) -> (r: Option<Vec<GetRoleRes>>)
    ensures
        match r {
            Some(roles) => roles_of(doc@) == Some(views(roles@)),
            None => roles_of(doc@) is None,
        },
{
    match doc {
        Json::Array(items) => {
            proof {
                lemma_array_view(*items);
            }
            let ghost all = item_views(items@);
            let mut roles: Vec<GetRoleRes> = Vec::new();
            assert(views(roles@) =~= visible_roles(all.take(0)));
            let mut i: usize = 0;
            while i < items.len()
                invariant
                    0 <= i <= items.len(),
                    all == item_views(items@),
                    views(roles@) == visible_roles(all.take(i as int)),
                decreases items.len() - i,
            {
                let ghost before = views(roles@);
                proof {
                    assert(all.take(i + 1).drop_last() == all.take(i as int));
                    assert(all.take(i + 1).last() == items[i as int]@);
                }
                if !is_marked_deleted(&items[i]) {
                    roles.push(role_from_json(&items[i]));
                    assert(views(roles@) =~= before.push(role_of(items[i as int]@)));
                }
                i = i + 1;
            }
            assert(all.take(items.len() as int) == all);
            Some(roles)
        },
        _ => None,
    }
}

/// The number that a decimal digit stands for.
pub open spec fn digit_value(c: char) -> Option<int> {
    if '0' <= c && c <= '9' {
        Some(c as int - '0' as int)
    } else {
        None
    }
}

/// The number that a text of decimal digits stands for; `None` for the empty
/// text and for a text that holds anything else.
pub open spec fn digits_value(s: Seq<char>) -> Option<int>
    decreases s.len(),
{
    if s.len() == 0 {
        None
    } else if s.len() == 1 {
        digit_value(s[0])
    } else {
        match (digits_value(s.drop_last()), digit_value(s.last())) {
            (Some(value), Some(digit)) => Some(10 * value + digit),
            _ => None,
        }
    }
}

/// The whole number that a text stands for: decimal digits, with `-` before
/// them for a negative number.
pub open spec fn integer_of(s: Seq<char>) -> Option<int> {
    if s.len() > 0 && s[0] == '-' {
        match digits_value(s.skip(1)) {
            Some(value) => Some(-value),
            None => None,
        }
    } else {
        digits_value(s)
    }
}

/// The number that a text stands for, where it is a whole number that fits in
/// 64 bits with a sign.
pub open spec fn i64_of(s: Seq<char>) -> Option<i64> {
    match integer_of(s) {
        Some(value) => if i64::MIN <= value <= i64::MAX {
            Some(value as i64)
        } else {
            None
        },
        None => None,
    }
}

/// A text of digits stands for a number that is not negative, each of its
/// characters is a digit, and so is each text it begins with.
pub proof fn lemma_digits(s: Seq<char>, k: int)
    requires
        digits_value(s) is Some,
    ensures
        digits_value(s)->0 >= 0,
        0 <= k < s.len() ==> digit_value(s[k]) is Some,
        0 < k <= s.len() ==> digits_value(s.take(k)) is Some,
    decreases s.len(),
{
    if s.len() > 1 {
        let rest = s.drop_last();
        lemma_digits(rest, k);
        if 0 <= k < s.len() - 1 {
            assert(rest[k] == s[k]);
        }
        if 0 < k < s.len() {
            assert(rest.take(k) == s.take(k));
        }
    }
    if k == s.len() {
        assert(s.take(k) == s);
    }
}

const MAGNITUDE_LIMIT: u64 = 9223372036854775808;

/// Reads a whole number of 64 bits from its decimal text.
pub fn parse_i64(s: &str) -> (r: Option<i64>)
    ensures
        r == i64_of(s@),
{
    let n = s.unicode_len();
    if n == 0 {
        return None;
    }
    let negative = s.get_char(0) == '-';
    let start: usize = if negative {
        1
    } else {
        0
    };
    let ghost digits = s@.subrange(start as int, n as int);
    proof {
        if negative {
            assert(digits == s@.skip(1));
        } else {
            assert(digits == s@);
        }
    }
    let mut magnitude: u64 = 0;
    let mut huge = false;
    let mut i: usize = start;
    while i < n
        invariant
            start <= i <= n,
            n == s@.len(),
            n > 0,
            negative == (s@[0] == '-'),
            start == if negative { 1int } else { 0int },
            digits == if negative { s@.skip(1) } else { s@ },
            magnitude <= MAGNITUDE_LIMIT,
            i > start ==> digits_value(digits.take(i - start)) is Some,
            i > start && !huge ==> digits_value(digits.take(i - start)) == Some(magnitude as int),
            i > start && huge ==> digits_value(digits.take(i - start))->0 > MAGNITUDE_LIMIT,
            i == start ==> magnitude == 0 && !huge,
        decreases n - i,
    {
        let c = s.get_char(i);
        let ghost upto = digits.take(i - start + 1);
        proof {
            assert(upto.drop_last() == digits.take(i - start));
            assert(upto.last() == c);
        }
        if !('0' <= c && c <= '9') {
            proof {
                assert(digits[i - start] == c);
                if digits_value(digits) is Some {
                    lemma_digits(digits, i - start);
                }
            }
            return None;
        }
        let digit: u64 = (c as u64) - ('0' as u64);
        if !huge {
            let next: u128 = (magnitude as u128) * 10 + (digit as u128);
            if next > MAGNITUDE_LIMIT as u128 {
                huge = true;
            } else {
                magnitude = next as u64;
            }
        }
        i = i + 1;
    }
    proof {
        assert(digits.take(n - start) == digits);
    }
    if i == start || huge {
        None
    } else if negative {
        if magnitude == MAGNITUDE_LIMIT {
            Some(i64::MIN)
        } else {
            Some(-(magnitude as i64))
        }
    } else if magnitude == MAGNITUDE_LIMIT {
        None
    } else {
        Some(magnitude as i64)
    }
}

/// The seconds of an expiry as the session states them: the number where it fits
/// in 16 bits without a sign, else 0.
pub open spec fn expiry(seconds: i64) -> u16 {
    if 0 <= seconds <= u16::MAX {
        seconds as u16
    } else {
        0
    }
}

/// Brings the seconds of an expiry into 16 bits; 0 where they do not fit.
pub fn coerce_expiry(seconds: i64) -> (r: u16)
    ensures
        r == expiry(seconds),
{
    if 0 <= seconds && seconds <= 65535 {
        seconds as u16
    } else {
        0
    }
}

/// The text of a field that has to be there.
pub open spec fn required_text(doc: JsonView, name: Seq<char>) -> Option<Seq<char>> {
    match doc.field(name) {
        Some(JsonView::Text(s)) => Some(s),
        _ => None,
    }
}

/// The whole number of a field that has to be there.
pub open spec fn required_i64(doc: JsonView, name: Seq<char>) -> Option<i64> {
    match doc.field(name) {
        Some(JsonView::Number(n)) => i64_of(n),
        _ => None,
    }
}

/// The session that a token payload stands for: `None` unless it states the two
/// tokens and the token type as texts and the two expiries as whole numbers.
pub open spec fn session_of(doc: JsonView) -> Option<LoginResKeycloakView> {
    match (
        required_text(doc, "access_token"@),
        required_i64(doc, "expires_in"@),
        required_i64(doc, "refresh_expires_in"@),
        required_text(doc, "refresh_token"@),
        required_text(doc, "token_type"@),
    ) {
        (
            Some(access_token),
            Some(expires_in),
            Some(refresh_expires_in),
            Some(refresh_token),
            Some(token_type),
        ) => Some(
            LoginResKeycloakView {
                access_token,
                expires_in,
                refresh_expires_in,
                refresh_token,
                token_type,
            },
        ),
        _ => None,
    }
}

fn text_field(doc: &Json, name: &str) -> (r: Option<String>)
    ensures
        r.deep_view() == required_text(doc@, name@),
{
    match doc.get(name) {
        Some(Json::Text(s)) => Some(s.clone()),
        _ => None,
    }
}

fn i64_field(doc: &Json, name: &str) -> (r: Option<i64>)
    ensures
        r == required_i64(doc@, name@),
{
    match doc.get(name) {
        Some(Json::Number(n)) => parse_i64(n.as_str()),
        _ => None,
    }
}

/// Reads the session from a token payload.
pub fn session_from_json(doc: &Json) -> (r: Option<LoginResKeycloak>)
    ensures
        match r {
            Some(session) => session_of(doc@) == Some(session@),
            None => session_of(doc@) is None,
        },
{
    let access_token = text_field(doc, "access_token");
    let expires_in = i64_field(doc, "expires_in");
    let refresh_expires_in = i64_field(doc, "refresh_expires_in");
    let refresh_token = text_field(doc, "refresh_token");
    let token_type = text_field(doc, "token_type");
    match (access_token, expires_in, refresh_expires_in, refresh_token, token_type) {
        (
            Some(access_token),
            Some(expires_in),
            Some(refresh_expires_in),
            Some(refresh_token),
            Some(token_type),
        ) => Some(
            LoginResKeycloak {
                access_token,
                expires_in,
                refresh_expires_in,
                refresh_token,
                token_type,
            },
        ),
        _ => None,
    }
}

} // verus!
