//! Game accounts: what they hold, which roles they serve, and the body with
//! which they log in.

use crate::codec::{encode_messagepack, messagepack_map};
use crate::config::{is_cp_region, LoginProtocol, ServerRegion};
use crate::decimal::{
    i64_value, integer_text, lemma_no_leading_zero, parse_i64, write_i64,
    written_integers_read_back,
};
use crate::error::{AppError, ErrorView};
use crate::json::{
    fields_of, json_from_i64, json_from_text, no_fields, push_field, JsonView,
};
use crate::text::{
    ascii_lower_char, ascii_lowercase, is_white_space, joined, same_text, texts, trim_text,
    trimmed, trimmed_end, trimmed_start, trimming_leaves_what_stands_between,
};
use indexmap::IndexMap;
use serde_json::Value;
use vstd::prelude::*;
use vstd::string::*;

verus! {

/// The role of an account that is used for ordinary requests.
pub const DEFAULT_PROXY_ROLE: &'static str = "default";

/// The role of an account that is used for MySekai.
pub const MYSEKAI_PROXY_ROLE: &'static str = "mysekai";

// ---------------------------------------------------------------------------
// Roles
// ---------------------------------------------------------------------------

/// A role without white space around it and in ASCII lower case.
pub open spec fn normal_role(role: Seq<char>) -> Seq<char> {
    ascii_lowercase(trimmed(role))
}

/// The roles of a list that are not blank, each made normal.
pub open spec fn given_roles(roles: Seq<Seq<char>>) -> Seq<Seq<char>> {
    roles.map_values(|role: Seq<char>| normal_role(role)).filter(
        |role: Seq<char>| role.len() > 0,
    )
}

/// The roles that an account serves: those it gives, or the default role where
/// it gives none.
pub open spec fn served_roles(roles: Seq<Seq<char>>) -> Seq<Seq<char>> {
    let given = given_roles(roles);
    if given.len() == 0 {
        seq!["default"@]
    } else {
        given
    }
}

/// An account with these roles serves `role`.
pub open spec fn serves(roles: Seq<Seq<char>>, role: Seq<char>) -> bool {
    served_roles(roles).contains(normal_role(role))
}

/// Takes off the white space around a role and puts it in lower case.
pub fn normalize_proxy_role(role: &str) -> (r: String)
    ensures
        r@ == normal_role(role@),
{
    trim_text(role).to_ascii_lowercase()
}

/// One more role adds itself, made normal, where it is not blank.
proof fn lemma_one_more_role(roles: Seq<Seq<char>>, role: Seq<char>)
    ensures
        given_roles(roles.push(role)) == if normal_role(role).len() > 0 {
            given_roles(roles).push(normal_role(role))
        } else {
            given_roles(roles)
        },
{
    reveal(Seq::filter);
    let normal = |role: Seq<char>| normal_role(role);
    assert(roles.push(role).map_values(normal) =~= roles.map_values(normal).push(
        normal_role(role),
    ));
    assert(roles.map_values(normal).push(normal_role(role)).drop_last() =~= roles.map_values(
        normal,
    ));
}

/// The roles that an account with these roles serves.
pub fn normalized_proxy_roles(roles: &[String]) -> (r: Vec<String>)
    ensures
        texts(r@) == served_roles(texts(roles@)),
{
    let mut normalized: Vec<String> = Vec::new();
    let ghost all = texts(roles@);
    let mut i: usize = 0;
    proof {
        reveal(Seq::filter);
        assert(texts(normalized@) =~= given_roles(all.take(0)));
    }
    while i < roles.len()
        invariant
            i <= roles@.len(),
            all == texts(roles@),
            texts(normalized@) == given_roles(all.take(i as int)),
        decreases roles@.len() - i,
    {
        let role = normalize_proxy_role(roles[i].as_str());
        let ghost before = normalized@;
        proof {
            assert(all.take(i + 1) =~= all.take(i as int).push(roles@[i as int]@));
            lemma_one_more_role(all.take(i as int), roles@[i as int]@);
        }
        if !role.as_str().is_empty() {
            let ghost text = role@;
            normalized.push(role);
            proof {
                assert(texts(normalized@) =~= texts(before).push(text));
            }
        }
        i += 1;
    }
    proof {
        assert(all.take(roles@.len() as int) =~= all);
    }
    if normalized.len() == 0 {
        normalized.push(DEFAULT_PROXY_ROLE.to_owned());
        proof {
            assert(given_roles(all).len() == texts(normalized@.drop_last()).len());
            assert(texts(normalized@) =~= seq!["default"@]);
        }
    }
    normalized
}

/// Whether one of the strings is `text`.
fn holds_text(strings: &Vec<String>, text: &str) -> (r: bool)
    ensures
        r == texts(strings@).contains(text@),
{
    let mut i: usize = 0;
    while i < strings.len()
        invariant
            i <= strings@.len(),
            forall|j: int| 0 <= j < i ==> #[trigger] texts(strings@)[j] != text@,
        decreases strings@.len() - i,
    {
        if same_text(strings[i].as_str(), text) {
            proof {
                assert(texts(strings@)[i as int] == text@);
            }
            return true;
        }
        i += 1;
    }
    false
}

/// Whether an account with these roles serves `role`.
pub fn serves_role(roles: &[String], role: &str) -> (r: bool)
    ensures
        r == serves(texts(roles@), role@),
{
    holds_text(&normalized_proxy_roles(roles), normalize_proxy_role(role).as_str())
}

// ---------------------------------------------------------------------------
// Accounts
// ---------------------------------------------------------------------------

/// The two kinds of accounts.
#[derive(Debug, Clone, Copy, PartialEq, Eq, Structural)]
pub enum AccountKind {
    Cp,
    Nuverse,
}

/// The kind of a region's accounts.
pub open spec fn kind_in(region: ServerRegion) -> AccountKind {
    if is_cp_region(region) {
        AccountKind::Cp
    } else {
        AccountKind::Nuverse
    }
}

/// The kind of a region's accounts. It decides how a document is read as an
/// account, and how a user's number is read from the account's token.
pub fn account_kind(region: ServerRegion) -> (r: AccountKind)
    ensures
        r == kind_in(region),
{
    if region.is_cp_server() {
        AccountKind::Cp
    } else {
        AccountKind::Nuverse
    }
}

/// What an account holds. The token is the credential of a CP account and the
/// access token of a Nuverse account.
pub struct AccountView {
    pub kind: AccountKind,
    pub user_id: Seq<char>,
    pub device_id: Seq<char>,
    pub token: Seq<char>,
    pub proxy_roles: Seq<Seq<char>>,
}

/// The entries of the body with which an account logs in, in their order; or
/// the error where the account has no such body.
pub open spec fn login_fields(account: AccountView, protocol: LoginProtocol) -> Result<
    Seq<(Seq<char>, JsonView)>,
    ErrorView,
> {
    match protocol {
        LoginProtocol::V1 => match account.kind {
            AccountKind::Cp => Ok(
                if account.device_id.len() == 0 {
                    Seq::<(Seq<char>, JsonView)>::empty()
                } else {
                    seq![("deviceId"@, JsonView::Text(account.device_id))]
                } + seq![
                    ("credential"@, JsonView::Text(account.token)),
                    ("authTriggerType"@, JsonView::Text("normal"@)),
                ],
            ),
            AccountKind::Nuverse => match i64_value(account.user_id) {
                Some(n) => Ok(
                    seq![
                        (
                            "deviceId"@,
                            JsonView::Text(
                                if account.device_id.len() == 0 {
                                    account.user_id
                                } else {
                                    account.device_id
                                },
                            ),
                        ),
                        ("accessToken"@, JsonView::Text(account.token)),
                        ("userID"@, JsonView::Number(integer_text(n))),
                    ],
                ),
                None => Err(ErrorView::ParseError("Invalid user_id: "@ + account.user_id)),
            },
        },
        LoginProtocol::V2 => Ok(seq![("accessToken"@, JsonView::Text(account.token))]),
    }
}

/// `r` answers the request for the body with which an account logs in: the
/// MessagePack map of its [`login_fields`], or their error.
pub open spec fn is_login_body(
    account: AccountView,
    protocol: LoginProtocol,
    r: Result<Vec<u8>, AppError>,
) -> bool {
    match login_fields(account, protocol) {
        Ok(fields) => r is Ok && r->Ok_0@ == messagepack_map(fields),
        Err(e) => r is Err && r->Err_0@ == e,
    }
}

/// What every account can tell of itself.
pub trait SekaiAccount: Send + Sync {
    /// What the account holds.
    spec fn details(&self) -> AccountView;

    /// The user's number, as text.
    fn user_id(&self) -> (r: &str)
        ensures
            r@ == self.details().user_id,
    ;

    /// Gives the account another user's number.
    fn set_user_id(&mut self, user_id: String)
        ensures
            final(self).details() == (AccountView { user_id: user_id@, ..old(self).details() }),
    ;

    /// The device that the account logs in from.
    fn device_id(&self) -> (r: &str)
        ensures
            r@ == self.details().device_id,
    ;

    /// The token with which the account logs in.
    fn token(&self) -> (r: &str)
        ensures
            r@ == self.details().token,
    ;

    /// The roles as they are given.
    fn proxy_roles(&self) -> (r: &[String])
        ensures
            texts(r@) == self.details().proxy_roles,
    ;

    /// The body with which the account logs in.
    fn dump(&self, protocol: LoginProtocol) -> (r: Result<Vec<u8>, AppError>)
        ensures
            is_login_body(self.details(), protocol, r),
    ;

    /// Whether the account serves a role.
    fn has_proxy_role(&self, role: &str) -> (r: bool)
        ensures
            r == serves(self.details().proxy_roles, role@),
    {
        serves_role(self.proxy_roles(), role)
    }
}

/// The body that comes of an encoding, or the error that says why there is
/// none.
pub fn encoded_body(encoded: Result<Vec<u8>, String>) -> (r: Result<Vec<u8>, AppError>)
    ensures
        match encoded {
            Ok(bytes) => r == Ok::<Vec<u8>, AppError>(bytes),
            Err(message) => r is Err && r->Err_0@ == ErrorView::ParseError(message@),
        },
{
    match encoded {
        Ok(bytes) => Ok(bytes),
        Err(message) => Err(AppError::ParseError(message)),
    }
}

/// Adds a text to the entries of a body.
fn push_text(fields: &mut IndexMap<String, Value>, key: &str, text: &str)
    requires
        forall|i: int|
            0 <= i < fields_of(*old(fields)).len() ==> (#[trigger] fields_of(*old(fields))[i]).0
                != key@,
    ensures
        fields_of(*final(fields)) == fields_of(*old(fields)).push((key@, JsonView::Text(text@))),
{
    push_field(fields, key.to_owned(), json_from_text(text.to_owned()));
}

/// The body that carries the access token alone.
fn token_body(token: &str) -> (r: Result<Vec<u8>, AppError>)
    ensures
        r is Ok,
        r->Ok_0@ == messagepack_map(seq![("accessToken"@, JsonView::Text(token@))]),
{
    let mut fields = no_fields();
    push_text(&mut fields, "accessToken", token);
    proof {
        assert(fields_of(fields) =~= seq![("accessToken"@, JsonView::Text(token@))]);
    }
    encoded_body(encode_messagepack(&fields))
}

/// An account of the regions Jp and En.
#[derive(Debug, Clone)]
pub struct SekaiAccountCP {
    pub user_id: String,
    pub device_id: String,
    pub credential: String,
    pub proxy_roles: Vec<String>,
}

impl SekaiAccount for SekaiAccountCP {
    open spec fn details(&self) -> AccountView {
        AccountView {
            kind: AccountKind::Cp,
            user_id: self.user_id@,
            device_id: self.device_id@,
            token: self.credential@,
            proxy_roles: texts(self.proxy_roles@),
        }
    }

    fn user_id(&self) -> (r: &str) {
        self.user_id.as_str()
    }

    fn set_user_id(&mut self, user_id: String) {
        self.user_id = user_id;
    }

    fn device_id(&self) -> (r: &str) {
        self.device_id.as_str()
    }

    fn token(&self) -> (r: &str) {
        self.credential.as_str()
    }

    fn proxy_roles(&self) -> (r: &[String]) {
        self.proxy_roles.as_slice()
    }

    fn dump(&self, protocol: LoginProtocol) -> (r: Result<Vec<u8>, AppError>) {
        match protocol {
            LoginProtocol::V1 => {
                proof {
                    lemma_field_names_differ();
                }
                let mut fields = no_fields();
                if !self.device_id.as_str().is_empty() {
                    push_text(&mut fields, "deviceId", self.device_id.as_str());
                }
                push_text(&mut fields, "credential", self.credential.as_str());
                push_text(&mut fields, "authTriggerType", "normal");
                proof {
                    assert(fields_of(fields) =~= login_fields(self.details(), protocol)->Ok_0);
                }
                encoded_body(encode_messagepack(&fields))
            },
            LoginProtocol::V2 => token_body(self.credential.as_str()),
        }
    }
}

/// The names of a body's entries differ.
proof fn lemma_field_names_differ()
    ensures
        "deviceId"@ != "credential"@,
        "deviceId"@ != "authTriggerType"@,
        "credential"@ != "authTriggerType"@,
        "deviceId"@ != "accessToken"@,
        "deviceId"@ != "userID"@,
        "accessToken"@ != "userID"@,
{
    reveal_strlit("deviceId");
    reveal_strlit("credential");
    reveal_strlit("authTriggerType");
    reveal_strlit("accessToken");
    reveal_strlit("userID");
    assert("deviceId"@[0] == 'd' && "credential"@[0] == 'c' && "authTriggerType"@[0] == 'a'
        && "accessToken"@[0] == 'a' && "userID"@[0] == 'u');
}

/// An account of the other regions.
#[derive(Debug, Clone)]
pub struct SekaiAccountNuverse {
    pub user_id: String,
    pub device_id: String,
    pub access_token: String,
    pub proxy_roles: Vec<String>,
}

impl SekaiAccount for SekaiAccountNuverse {
    open spec fn details(&self) -> AccountView {
        AccountView {
            kind: AccountKind::Nuverse,
            user_id: self.user_id@,
            device_id: self.device_id@,
            token: self.access_token@,
            proxy_roles: texts(self.proxy_roles@),
        }
    }

    fn user_id(&self) -> (r: &str) {
        self.user_id.as_str()
    }

    fn set_user_id(&mut self, user_id: String) {
        self.user_id = user_id;
    }

    fn device_id(&self) -> (r: &str) {
        self.device_id.as_str()
    }

    fn token(&self) -> (r: &str) {
        self.access_token.as_str()
    }

    fn proxy_roles(&self) -> (r: &[String]) {
        self.proxy_roles.as_slice()
    }

    fn dump(&self, protocol: LoginProtocol) -> (r: Result<Vec<u8>, AppError>) {
        match protocol {
            LoginProtocol::V1 => match parse_i64(self.user_id.as_str()) {
                Some(user_id) => {
                    proof {
                        lemma_field_names_differ();
                    }
                    let device_id = if self.device_id.as_str().is_empty() {
                        self.user_id.as_str()
                    } else {
                        self.device_id.as_str()
                    };
                    let mut fields = no_fields();
                    push_text(&mut fields, "deviceId", device_id);
                    push_text(&mut fields, "accessToken", self.access_token.as_str());
                    push_field(&mut fields, "userID".to_owned(), json_from_i64(user_id));
                    proof {
                        assert(fields_of(fields) =~= login_fields(self.details(), protocol)->Ok_0);
                    }
                    encoded_body(encode_messagepack(&fields))
                },
                None => Err(
                    AppError::ParseError(joined("Invalid user_id: ", self.user_id.as_str())),
                ),
            },
            // Since 6.4.0 the access token alone is sent; the server takes the
            // account and the device from it.
            LoginProtocol::V2 => token_body(self.access_token.as_str()),
        }
    }
}

/// An account of either kind.
#[derive(Debug, Clone)]
pub enum AccountType {
    CP(SekaiAccountCP),
    Nuverse(SekaiAccountNuverse),
}

impl AccountType {
    /// The kind of the account.
    pub fn kind(&self) -> (r: AccountKind)
        ensures
            r == self.details().kind,
    {
        match self {
            AccountType::CP(_) => AccountKind::Cp,
            AccountType::Nuverse(_) => AccountKind::Nuverse,
        }
    }
}

impl SekaiAccount for AccountType {
    open spec fn details(&self) -> AccountView {
        match self {
            AccountType::CP(account) => account.details(),
            AccountType::Nuverse(account) => account.details(),
        }
    }

    fn user_id(&self) -> (r: &str) {
        match self {
            AccountType::CP(account) => account.user_id(),
            AccountType::Nuverse(account) => account.user_id(),
        }
    }

    fn set_user_id(&mut self, user_id: String) {
        match self {
            AccountType::CP(account) => account.set_user_id(user_id),
            AccountType::Nuverse(account) => account.set_user_id(user_id),
        }
    }

    fn device_id(&self) -> (r: &str) {
        match self {
            AccountType::CP(account) => account.device_id(),
            AccountType::Nuverse(account) => account.device_id(),
        }
    }

    fn token(&self) -> (r: &str) {
        match self {
            AccountType::CP(account) => account.token(),
            AccountType::Nuverse(account) => account.token(),
        }
    }

    fn proxy_roles(&self) -> (r: &[String]) {
        match self {
            AccountType::CP(account) => account.proxy_roles(),
            AccountType::Nuverse(account) => account.proxy_roles(),
        }
    }

    fn dump(&self, protocol: LoginProtocol) -> (r: Result<Vec<u8>, AppError>) {
        match self {
            AccountType::CP(account) => account.dump(protocol),
            AccountType::Nuverse(account) => account.dump(protocol),
        }
    }
}

// ---------------------------------------------------------------------------
// Fields of account files
// ---------------------------------------------------------------------------

/// What may stand where a text is expected.
#[derive(Debug, Clone)]
pub enum StringOrNumber {
    Text(String),
    Number(i64),
    Null,
}

/// The text that stands for a text, a number or nothing.
pub open spec fn field_text(value: StringOrNumber) -> Seq<char> {
    match value {
        StringOrNumber::Text(text) => text@,
        StringOrNumber::Number(n) => integer_text(n as int),
        StringOrNumber::Null => Seq::<char>::empty(),
    }
}

/// A text as it is, a number in decimal, and nothing for null.
pub fn null_or_number_to_string(value: StringOrNumber) -> (r: String)
    ensures
        r@ == field_text(value),
{
    match value {
        StringOrNumber::Text(text) => text,
        StringOrNumber::Number(n) => write_i64(n),
        StringOrNumber::Null => String::new(),
    }
}

/// A text as it is, and nothing for null.
pub fn null_to_empty_string(value: Option<String>) -> (r: String)
    ensures
        r@ == match value {
            Some(text) => text@,
            None => Seq::<char>::empty(),
        },
{
    match value {
        Some(text) => text,
        None => String::new(),
    }
}

// ---------------------------------------------------------------------------
// Laws
// ---------------------------------------------------------------------------

/// Nothing but white space goes from the start, and none is left there.
proof fn lemma_trimmed_start(s: Seq<char>)
    ensures
        trimmed_start(s).len() <= s.len(),
        trimmed_start(s) == s.skip(s.len() - trimmed_start(s).len()),
        trimmed_start(s).len() > 0 ==> !is_white_space(trimmed_start(s)[0]),
    decreases s.len(),
{
    if s.len() > 0 && is_white_space(s[0]) {
        lemma_trimmed_start(s.drop_first());
        let rest = trimmed_start(s.drop_first());
        assert(s.drop_first().skip(s.len() - 1 - rest.len()) =~= s.skip(s.len() - rest.len()));
    } else {
        assert(s.skip(0) =~= s);
    }
}

/// Nothing but white space goes from the end, and none is left there.
proof fn lemma_trimmed_end(s: Seq<char>)
    ensures
        trimmed_end(s).len() <= s.len(),
        trimmed_end(s) == s.take(trimmed_end(s).len() as int),
        trimmed_end(s).len() > 0 ==> !is_white_space(trimmed_end(s).last()),
    decreases s.len(),
{
    if s.len() > 0 && is_white_space(s.last()) {
        lemma_trimmed_end(s.drop_last());
        let rest = trimmed_end(s.drop_last());
        assert(s.drop_last().take(rest.len() as int) =~= s.take(rest.len() as int));
    } else {
        assert(s.take(s.len() as int) =~= s);
    }
}

/// The lower case of a character is white space where the character is, and is
/// its own lower case.
proof fn lemma_lower_char(c: char)
    ensures
        is_white_space(ascii_lower_char(c)) == is_white_space(c),
        ascii_lower_char(ascii_lower_char(c)) == ascii_lower_char(c),
{
}

/// A normal role has no white space around it and is in lower case.
proof fn lemma_normal_role(role: Seq<char>)
    ensures
        trimmed(normal_role(role)) == normal_role(role),
        ascii_lowercase(normal_role(role)) == normal_role(role),
{
    let t = trimmed(role);
    lemma_trimmed_start(role);
    lemma_trimmed_end(trimmed_start(role));
    let n = normal_role(role);
    assert forall|i: int| 0 <= i < n.len() implies {
        &&& is_white_space(#[trigger] n[i]) == is_white_space(t[i])
        &&& ascii_lower_char(n[i]) == n[i]
    } by {
        lemma_lower_char(t[i]);
    }
    assert(ascii_lowercase(n) =~= n);
    if t.len() > 0 {
        assert(t[0] == trimmed_start(role)[0]);
        assert(!is_white_space(n[0]));
        assert(trimmed_start(n) == n);
        assert(!is_white_space(n.last()));
    }
}

/// Jp and En have CP accounts, and the other regions have Nuverse accounts.
pub proof fn regions_have_their_kind_of_account(region: ServerRegion)
    ensures
        kind_in(region) is Cp <==> region == ServerRegion::Jp || region == ServerRegion::En,
        kind_in(region) is Nuverse <==> region == ServerRegion::Tw || region == ServerRegion::Kr
            || region == ServerRegion::Cn,
{
}

/// To normalise a role twice is to normalise it once.
pub proof fn normalizing_a_role_is_idempotent(role: Seq<char>)
    ensures
        normal_role(normal_role(role)) == normal_role(role),
{
    lemma_normal_role(role);
}

/// A role is given where it is one of the list, made normal, and not blank.
proof fn lemma_given_roles(roles: Seq<Seq<char>>, role: Seq<char>)
    ensures
        given_roles(roles).contains(role) <==> role.len() > 0 && exists|i: int|
            0 <= i < roles.len() && normal_role(#[trigger] roles[i]) == role,
    decreases roles.len(),
{
    reveal(Seq::filter);
    if roles.len() == 0 {
        assert(given_roles(roles) =~= Seq::<Seq<char>>::empty());
    } else {
        let front = roles.drop_last();
        let last = roles.last();
        assert(front.push(last) =~= roles);
        lemma_given_roles(front, role);
        lemma_one_more_role(front, last);
        if given_roles(roles).contains(role) {
            if given_roles(front).contains(role) {
                let i = choose|i: int|
                    0 <= i < front.len() && normal_role(#[trigger] front[i]) == role;
                assert(roles[i] == front[i]);
            } else {
                let k = choose|k: int|
                    0 <= k < given_roles(roles).len() && given_roles(roles)[k] == role;
                assert(normal_role(last) == role && role.len() > 0) by {
                    if normal_role(last).len() > 0 {
                        if k < given_roles(front).len() {
                            assert(given_roles(front)[k] == role);
                        }
                    } else {
                        assert(given_roles(front)[k] == role);
                    }
                }
                assert(roles[roles.len() - 1] == last);
            }
        }
        if role.len() > 0 && exists|i: int|
            0 <= i < roles.len() && normal_role(#[trigger] roles[i]) == role {
            let i = choose|i: int| 0 <= i < roles.len() && normal_role(#[trigger] roles[i]) == role;
            if i < front.len() {
                assert(front[i] == roles[i]);
                let k = choose|k: int|
                    0 <= k < given_roles(front).len() && given_roles(front)[k] == role;
                assert(given_roles(roles)[k] == role);
            } else {
                assert(given_roles(roles).last() == role);
            }
        }
    }
}

/// An account always serves at least one role, and every role that it serves is
/// normal and not blank.
pub proof fn served_roles_are_normal(roles: Seq<Seq<char>>)
    ensures
        served_roles(roles).len() > 0,
        forall|role: Seq<char>| #[trigger]
            served_roles(roles).contains(role) ==> role.len() > 0 && normal_role(role) == role,
{
    assert forall|role: Seq<char>| #[trigger] served_roles(roles).contains(role) implies role.len()
        > 0 && normal_role(role) == role by {
        lemma_given_roles(roles, role);
        if given_roles(roles).len() > 0 {
            let i = choose|i: int| 0 <= i < roles.len() && normal_role(#[trigger] roles[i]) == role;
            normalizing_a_role_is_idempotent(roles[i]);
        } else {
            lemma_default_is_normal();
            assert(role == "default"@);
        }
    }
}

/// The name of the default role is normal.
proof fn lemma_default_is_normal()
    ensures
        "default"@.len() > 0,
        normal_role("default"@) == "default"@,
{
    reveal_strlit("default");
    let d = "default"@;
    assert(!is_white_space(d[0]));
    assert(!is_white_space(d.last()));
    assert(trimmed_start(d) == d);
    assert(trimmed_end(d) == d);
    assert(ascii_lowercase(d) =~= d);
}

/// Whether a role is served does not depend on its case or on white space
/// around it, and a blank role is never served.
pub proof fn role_matching_ignores_case_and_space(roles: Seq<Seq<char>>, role: Seq<char>)
    ensures
        serves(roles, normal_role(role)) == serves(roles, role),
        normal_role(role).len() == 0 ==> !serves(roles, role),
{
    normalizing_a_role_is_idempotent(role);
    served_roles_are_normal(roles);
}

/// An account that gives roles serves those and no others: it does not fall
/// back to the default role.
pub proof fn given_roles_do_not_fall_back(roles: Seq<Seq<char>>, role: Seq<char>)
    requires
        exists|i: int| 0 <= i < roles.len() && normal_role(#[trigger] roles[i]).len() > 0,
    ensures
        serves(roles, role) <==> normal_role(role).len() > 0 && exists|i: int|
            0 <= i < roles.len() && normal_role(#[trigger] roles[i]) == normal_role(role),
{
    let i = choose|i: int| 0 <= i < roles.len() && normal_role(#[trigger] roles[i]).len() > 0;
    lemma_given_roles(roles, normal_role(roles[i]));
    assert(given_roles(roles).contains(normal_role(roles[i])));
    lemma_given_roles(roles, normal_role(role));
}

/// An account that gives no role, or blank ones only, serves the default role
/// and no other.
pub proof fn accounts_without_roles_serve_the_default(roles: Seq<Seq<char>>, role: Seq<char>)
    requires
        forall|i: int| 0 <= i < roles.len() ==> normal_role(#[trigger] roles[i]).len() == 0,
    ensures
        serves(roles, role) <==> normal_role(role) == "default"@,
{
    if given_roles(roles).len() > 0 {
        let first = given_roles(roles)[0];
        assert(given_roles(roles).contains(first));
        lemma_given_roles(roles, first);
        assert(false);
    }
    assert(served_roles(roles)[0] == "default"@);
}

/// The names of a body's entries.
pub open spec fn field_names(fields: Seq<(Seq<char>, JsonView)>) -> Seq<Seq<char>> {
    fields.map_values(|field: (Seq<char>, JsonView)| field.0)
}

/// With `V2` every account has a body, whatever its user's number looks like,
/// and the body carries the access token and nothing else.
pub proof fn v2_bodies_carry_only_the_access_token(account: AccountView)
    ensures
        login_fields(account, LoginProtocol::V2) is Ok,
        field_names(login_fields(account, LoginProtocol::V2)->Ok_0) == seq!["accessToken"@],
        login_fields(account, LoginProtocol::V2)->Ok_0[0].1 == JsonView::Text(account.token),
{
    assert(field_names(login_fields(account, LoginProtocol::V2)->Ok_0) =~= seq!["accessToken"@]);
}

/// With `V2` two accounts that have the same token log in with the same bytes,
/// whatever their kinds, users, devices and roles are.
pub proof fn v2_bodies_depend_on_the_token_alone(
    a: AccountView,
    b: AccountView,
    body_a: Result<Vec<u8>, AppError>,
    body_b: Result<Vec<u8>, AppError>,
)
    requires
        a.token == b.token,
        is_login_body(a, LoginProtocol::V2, body_a),
        is_login_body(b, LoginProtocol::V2, body_b),
    ensures
        body_a is Ok,
        body_b is Ok,
        body_a->Ok_0@ == body_b->Ok_0@,
{
}

/// With `V1` a Nuverse account has a body exactly where its user's number is an
/// `i64`, and the body then has the older fields, with a device in any case.
pub proof fn v1_nuverse_bodies_keep_the_older_fields(account: AccountView)
    requires
        account.kind is Nuverse,
    ensures
        login_fields(account, LoginProtocol::V1) is Ok <==> i64_value(account.user_id) is Some,
        login_fields(account, LoginProtocol::V1) is Ok ==> field_names(
            login_fields(account, LoginProtocol::V1)->Ok_0,
        ) == seq!["deviceId"@, "accessToken"@, "userID"@],
{
    if i64_value(account.user_id) is Some {
        assert(field_names(login_fields(account, LoginProtocol::V1)->Ok_0) =~= seq![
            "deviceId"@,
            "accessToken"@,
            "userID"@,
        ]);
    }
}

/// With `V1` every CP account has a body; it names the device exactly where the
/// account has one.
pub proof fn v1_cp_bodies_name_the_device_where_there_is_one(account: AccountView)
    requires
        account.kind is Cp,
    ensures
        login_fields(account, LoginProtocol::V1) is Ok,
        account.device_id.len() == 0 ==> field_names(
            login_fields(account, LoginProtocol::V1)->Ok_0,
        ) == seq!["credential"@, "authTriggerType"@],
        account.device_id.len() > 0 ==> field_names(login_fields(account, LoginProtocol::V1)->Ok_0)
            == seq!["deviceId"@, "credential"@, "authTriggerType"@],
{
    let fields = login_fields(account, LoginProtocol::V1)->Ok_0;
    if account.device_id.len() == 0 {
        assert(field_names(fields) =~= seq!["credential"@, "authTriggerType"@]);
    } else {
        assert(field_names(fields) =~= seq!["deviceId"@, "credential"@, "authTriggerType"@]);
    }
}

/// A user's number that stands as a number in an account file is the number
/// that a Nuverse account's `V1` body carries.
pub proof fn numeric_user_ids_reach_the_login_body(account: AccountView, n: i64)
    requires
        account.kind is Nuverse,
        account.user_id == field_text(StringOrNumber::Number(n)),
    ensures
        login_fields(account, LoginProtocol::V1) is Ok,
        login_fields(account, LoginProtocol::V1)->Ok_0[2] == (
            "userID"@,
            JsonView::Number(integer_text(n as int)),
        ),
{
    written_integers_read_back(n);
}

/// A role is made normal by taking the white space off both its ends and by
/// putting its letters `A` to `Z` in lower case; every other character stays.
pub proof fn normal_roles_keep_their_characters(
    before: Seq<char>,
    role: Seq<char>,
    after: Seq<char>,
)
    requires
        forall|i: int| 0 <= i < before.len() ==> is_white_space(#[trigger] before[i]),
        forall|i: int| 0 <= i < after.len() ==> is_white_space(#[trigger] after[i]),
        role.len() > 0 ==> !is_white_space(role[0]) && !is_white_space(role[role.len() - 1]),
    ensures
        normal_role(before + role + after).len() == role.len(),
        forall|i: int|
            0 <= i < role.len() ==> (#[trigger] normal_role(before + role + after)[i]) as int
                == role[i] as int + if 'A' <= role[i] <= 'Z' {
                32int
            } else {
                0
            },
{
    trimming_leaves_what_stands_between(before, role, after);
}

/// The roles of an account are read one by one and keep their order: each that
/// is not blank counts, made normal, and none counts for another. Where none
/// counts, the account serves the default role alone.
pub proof fn roles_are_read_one_by_one(a: Seq<Seq<char>>, b: Seq<Seq<char>>, role: Seq<char>)
    ensures
        given_roles(Seq::<Seq<char>>::empty()).len() == 0,
        given_roles(seq![role]) == if trimmed(role).len() > 0 {
            seq![normal_role(role)]
        } else {
            Seq::<Seq<char>>::empty()
        },
        given_roles(a + b) == given_roles(a) + given_roles(b),
        given_roles(a).len() > 0 ==> served_roles(a) == given_roles(a),
        given_roles(a).len() == 0 ==> served_roles(a) == seq!["default"@],
    decreases b.len(),
{
    reveal(Seq::filter);
    let none = Seq::<Seq<char>>::empty();
    assert(given_roles(none) =~= none);
    lemma_one_more_role(none, role);
    assert(none.push(role) =~= seq![role]);
    assert(given_roles(seq![role]) =~= if trimmed(role).len() > 0 {
        seq![normal_role(role)]
    } else {
        none
    });
    if b.len() == 0 {
        assert(a + b =~= a);
        assert(b =~= none);
        assert(given_roles(a) + given_roles(b) =~= given_roles(a));
    } else {
        let front = b.drop_last();
        roles_are_read_one_by_one(a, front, role);
        lemma_one_more_role(a + front, b.last());
        lemma_one_more_role(front, b.last());
        assert((a + front).push(b.last()) =~= a + b);
        assert(front.push(b.last()) =~= b);
        assert(given_roles(a + b) =~= given_roles(a) + given_roles(b));
    }
}

/// What an account tells of itself is what it holds: the credential of a CP
/// account and the access token of a Nuverse account are its token.
pub proof fn accounts_tell_what_they_hold(cp: SekaiAccountCP, nuverse: SekaiAccountNuverse)
    ensures
        cp.details().kind is Cp,
        cp.details().user_id == cp.user_id@,
        cp.details().device_id == cp.device_id@,
        cp.details().token == cp.credential@,
        cp.details().proxy_roles == texts(cp.proxy_roles@),
        nuverse.details().kind is Nuverse,
        nuverse.details().user_id == nuverse.user_id@,
        nuverse.details().device_id == nuverse.device_id@,
        nuverse.details().token == nuverse.access_token@,
        nuverse.details().proxy_roles == texts(nuverse.proxy_roles@),
        AccountType::CP(cp).details() == cp.details(),
        AccountType::Nuverse(nuverse).details() == nuverse.details(),
{
}

/// A body is made exactly where the account has the fields for it: those are
/// what is encoded, in their order. Otherwise there is their error.
pub proof fn bodies_are_made_of_the_fields(
    account: AccountView,
    protocol: LoginProtocol,
    r: Result<Vec<u8>, AppError>,
)
    requires
        is_login_body(account, protocol, r),
    ensures
        r is Err <==> protocol == LoginProtocol::V1 && account.kind is Nuverse && i64_value(
            account.user_id,
        ) is None,
        r is Err ==> r->Err_0@ == ErrorView::ParseError("Invalid user_id: "@ + account.user_id),
        r is Ok ==> r->Ok_0@ == messagepack_map(login_fields(account, protocol)->Ok_0),
{
}

/// With `V1` a CP account sends its device, where it has one, its credential and
/// that it logs in normally, whoever its user is.
pub proof fn v1_cp_bodies_hold_device_and_credential(account: AccountView)
    requires
        account.kind is Cp,
    ensures
        ({
            let fields = login_fields(account, LoginProtocol::V1)->Ok_0;
            let n = fields.len() as int;
            &&& login_fields(account, LoginProtocol::V1) is Ok
            &&& n == if account.device_id.len() > 0 {
                3int
            } else {
                2
            }
            &&& account.device_id.len() > 0 ==> fields[0] == (
                "deviceId"@,
                JsonView::Text(account.device_id),
            )
            &&& fields[n - 2] == ("credential"@, JsonView::Text(account.token))
            &&& fields[n - 1] == ("authTriggerType"@, JsonView::Text("normal"@))
        }),
{
}

/// With `V1` a Nuverse account sends its device, or else its user's number in
/// the device's place, its access token, and the number as a number.
pub proof fn v1_nuverse_bodies_hold_device_token_and_number(account: AccountView)
    requires
        account.kind is Nuverse,
        i64_value(account.user_id) is Some,
    ensures
        ({
            let fields = login_fields(account, LoginProtocol::V1)->Ok_0;
            &&& login_fields(account, LoginProtocol::V1) is Ok
            &&& fields.len() == 3
            &&& account.device_id.len() > 0 ==> fields[0] == (
                "deviceId"@,
                JsonView::Text(account.device_id),
            )
            &&& account.device_id.len() == 0 ==> fields[0] == (
                "deviceId"@,
                JsonView::Text(account.user_id),
            )
            &&& fields[1] == ("accessToken"@, JsonView::Text(account.token))
            &&& fields[2] == (
                "userID"@,
                JsonView::Number(integer_text(i64_value(account.user_id)->Some_0)),
            )
        }),
{
}

/// A field of an account file is read as the text that it is; a number is read
/// as the text that writes it, and null as no text.
pub proof fn fields_are_read_as_texts(text: String, n: i64)
    ensures
        field_text(StringOrNumber::Text(text)) == text@,
        i64_value(field_text(StringOrNumber::Number(n))) == Some(n as int),
        n >= 0 ==> field_text(StringOrNumber::Number(n))[0] != '+',
        field_text(StringOrNumber::Number(n)).len() > 1 && n >= 0 ==> field_text(
            StringOrNumber::Number(n),
        )[0] != '0',
        field_text(StringOrNumber::Null).len() == 0,
{
    written_integers_read_back(n);
    if n >= 0 {
        lemma_no_leading_zero(n as nat);
    }
}

} // verus!
