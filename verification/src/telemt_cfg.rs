//! The proxy's configuration file: the parameters a link is built from and
//! the table of credentials that the proxy accepts.

use crate::decimal::nat_decimal;
use crate::decimal::push_u128_decimal;
use crate::text::clone_opt_text;
use crate::text::opt_text;
use vstd::prelude::*;
use vstd::string::StringExecFns;

verus! {

/// What a proxy link needs to know of the proxy: where clients reach it and
/// the domain its traffic imitates.
#[derive(Debug)]
pub struct TelemtLinkParams {
    pub host: String,
    pub port: u16,
    pub tls_domain: String,
}

pub ghost struct LinkParamsView {
    pub host: Seq<char>,
    pub port: u16,
    pub tls_domain: Seq<char>,
}

impl View for TelemtLinkParams {
    type V = LinkParamsView;

    open spec fn view(&self) -> LinkParamsView {
        LinkParamsView { host: self.host@, port: self.port, tls_domain: self.tls_domain@ }
    }
}

impl Clone for TelemtLinkParams {
    fn clone(&self) -> (res: Self)
        ensures
            res@ == self@,
    {
        TelemtLinkParams {
            host: self.host.clone(),
            port: self.port,
            tls_domain: self.tls_domain.clone(),
        }
    }
}

/// One listener of the proxy, as the file gives it.
#[derive(Debug)]
pub struct ListenerEntry {
    pub announce: Option<String>,
    pub announce_ip: Option<String>,
}

/// The `[server]` section, as far as a link needs it.
#[derive(Debug)]
pub struct ServerSection {
    pub port: Option<u16>,
    pub listeners: Option<Vec<ListenerEntry>>,
}

/// The `[censorship]` section, as far as a link needs it.
#[derive(Debug)]
pub struct CensorshipSection {
    pub tls_domain: Option<String>,
}

/// The fields of the proxy's configuration that a link is built from.
#[derive(Debug)]
pub struct TelemtConfigRaw {
    pub server: Option<ServerSection>,
    pub censorship: Option<CensorshipSection>,
}

pub ghost struct ListenerView {
    pub announce: Option<Seq<char>>,
    pub announce_ip: Option<Seq<char>>,
}

pub ghost struct ServerView {
    pub port: Option<u16>,
    pub listeners: Option<Seq<ListenerView>>,
}

pub ghost struct RawConfigView {
    pub server: Option<ServerView>,
    pub tls_domain: Option<Seq<char>>,
}

impl View for ListenerEntry {
    type V = ListenerView;

    open spec fn view(&self) -> ListenerView {
        ListenerView {
            announce: opt_text(self.announce),
            announce_ip: opt_text(self.announce_ip),
        }
    }
}

impl View for ServerSection {
    type V = ServerView;

    open spec fn view(&self) -> ServerView {
        ServerView {
            port: self.port,
            listeners: match self.listeners {
                Some(list) => Some(Seq::new(list@.len(), |i: int| list@[i]@)),
                None => None,
            },
        }
    }
}

impl View for TelemtConfigRaw {
    type V = RawConfigView;

    open spec fn view(&self) -> RawConfigView {
        RawConfigView {
            server: match self.server {
                Some(server) => Some(server@),
                None => None,
            },
            tls_domain: match self.censorship {
                Some(section) => opt_text(section.tls_domain),
                None => None,
            },
        }
    }
}

/// What is wrong with the proxy's configuration, or with an edit of it.
#[derive(Clone, Copy, Debug, PartialEq, Eq, Structural)]
pub enum ConfigErrorKind {
    /// No listener gives an address to announce.
    MissingAnnounce,
    /// No TLS domain is set.
    MissingTlsDomain,
    /// The file is not TOML.
    Unparsable,
    /// Something that is no table stands where `[access]` belongs.
    MissingAccess,
    /// Something that is no table stands where `[access.users]` belongs.
    MissingUsers,
    /// The edited text is not TOML, so it must not be written.
    InvalidOutput,
}

/// A configuration error: its kind and, where a parser refused a text, what
/// the parser said.
#[derive(Debug)]
pub struct TelemtConfigError {
    pub kind: ConfigErrorKind,
    pub detail: String,
}

/// What stands before the detail in an error's message.
pub open spec fn error_prefix(kind: ConfigErrorKind) -> Seq<char> {
    match kind {
        ConfigErrorKind::MissingAnnounce => "Не найден announce/announce_ip в server.listeners"@,
        ConfigErrorKind::MissingTlsDomain => "Не задан censorship.tls_domain"@,
        ConfigErrorKind::Unparsable => "Ошибка парсинга TOML: "@,
        ConfigErrorKind::MissingAccess => "Секция [access] не найдена"@,
        ConfigErrorKind::MissingUsers => "Секция [access.users] не найдена"@,
        ConfigErrorKind::InvalidOutput => "Невалидный TOML перед записью: "@,
    }
}

impl TelemtConfigError {
    /// An error of this kind without detail.
    pub fn of_kind(kind: ConfigErrorKind) -> (e: TelemtConfigError)
        ensures
            e.kind == kind,
            e.detail@ == Seq::<char>::empty(),
    {
        TelemtConfigError { kind: kind, detail: String::new() }
    }

    /// The message for the administrator: what is wrong and, for a text that
    /// a parser refused, the parser's words.
    pub fn message(&self) -> (text: String)
        ensures
            text@ == error_prefix(self.kind) + self.detail@,
    {
        let prefix = match self.kind {
            ConfigErrorKind::MissingAnnounce => "Не найден announce/announce_ip в server.listeners",
            ConfigErrorKind::MissingTlsDomain => "Не задан censorship.tls_domain",
            ConfigErrorKind::Unparsable => "Ошибка парсинга TOML: ",
            ConfigErrorKind::MissingAccess => "Секция [access] не найдена",
            ConfigErrorKind::MissingUsers => "Секция [access.users] не найдена",
            ConfigErrorKind::InvalidOutput => "Невалидный TOML перед записью: ",
        };
        let mut text = String::from_str(prefix);
        text.append(self.detail.as_str());
        text
    }
}

/// The port that clients use where the file names none.
pub const DEFAULT_PORT: u16 = 443;

/// The address a listener announces: `announce`, or else `announce_ip`.
pub open spec fn listener_address(l: ListenerView) -> Option<Seq<char>> {
    match l.announce {
        Some(a) => Some(a),
        None => l.announce_ip,
    }
}

/// Whether listener `i` is the first that announces an address.
pub open spec fn is_first_announcing(ls: Seq<ListenerView>, i: int) -> bool {
    &&& 0 <= i < ls.len()
    &&& listener_address(ls[i]) is Some
    &&& forall|k: int| 0 <= k < i ==> listener_address(#[trigger] ls[k]) is None
}

/// The host of the link: the address of the first listener that announces
/// one.
pub open spec fn announced_host(raw: RawConfigView) -> Option<Seq<char>> {
    match raw.server {
        Some(ServerView { listeners: Some(ls), .. }) => {
            if exists|i: int| is_first_announcing(ls, i) {
                listener_address(ls[choose|i: int| is_first_announcing(ls, i)])
            } else {
                None
            }
        },
        _ => None,
    }
}

/// The link's port: the server's, or 443 where none is set.
pub open spec fn link_port(raw: RawConfigView) -> u16 {
    match raw.server {
        Some(ServerView { port: Some(p), .. }) => p,
        _ => DEFAULT_PORT,
    }
}

/// The link parameters that a configuration gives, or what it lacks. A
/// missing address is reported before a missing TLS domain.
pub open spec fn link_params_spec(raw: RawConfigView) -> Result<LinkParamsView, ConfigErrorKind> {
    match announced_host(raw) {
        None => Err(ConfigErrorKind::MissingAnnounce),
        Some(host) => match raw.tls_domain {
            None => Err(ConfigErrorKind::MissingTlsDomain),
            Some(domain) => Ok(
                LinkParamsView { host: host, port: link_port(raw), tls_domain: domain },
            ),
        },
    }
}

/// The first announcing listener is the only one that is first.
pub proof fn lemma_first_announcing_unique(ls: Seq<ListenerView>, i: int, j: int)
    requires
        is_first_announcing(ls, i),
        is_first_announcing(ls, j),
    ensures
        i == j,
{
    if i < j {
        assert(listener_address(ls[i]) is None);
    } else if j < i {
        assert(listener_address(ls[j]) is None);
    }
}

/// The view of what reading the link parameters gives.
pub open spec fn link_params_view(r: Result<TelemtLinkParams, TelemtConfigError>) -> Result<
    LinkParamsView,
    ConfigErrorKind,
> {
    match r {
        Ok(params) => Ok(params@),
        Err(e) => Err(e.kind),
    }
}

/// The address of the first listener that announces one.
fn first_announced(listeners: &Vec<ListenerEntry>) -> (res: Option<String>)
    ensures
        ({
            let ls = Seq::new(listeners@.len(), |i: int| listeners@[i]@);
            match res {
                Some(host) => exists|i: int|
                    is_first_announcing(ls, i) && listener_address(ls[i]) == Some(host@),
                None => forall|i: int| !is_first_announcing(ls, i),
            }
        }),
{
    let ghost ls = Seq::new(listeners@.len(), |i: int| listeners@[i]@);
    let mut i: usize = 0;
    while i < listeners.len()
        invariant
            i <= listeners.len(),
            ls == Seq::new(listeners@.len(), |i: int| listeners@[i]@),
            forall|k: int| 0 <= k < i ==> listener_address(#[trigger] ls[k]) is None,
        decreases listeners.len() - i,
    {
        let entry = &listeners[i];
        assert(ls[i as int] == entry@);
        let address = match &entry.announce {
            Some(a) => Some(a.clone()),
            None => clone_opt_text(&entry.announce_ip),
        };
        if let Some(host) = address {
            assert(is_first_announcing(ls, i as int));
            return Some(host);
        }
        i += 1;
    }
    assert forall|k: int| !is_first_announcing(ls, k) by {
        if 0 <= k < ls.len() {
            assert(listener_address(ls[k]) is None);
        }
    }
    None
}

/// A TOML document as `toml_edit` holds it: the values together with the
/// comments, spacing and order of the text it was parsed from.
#[verifier::external_type_specification]
#[verifier::external_body]
pub struct ExDocumentMut(toml_edit::DocumentMut);

/// The document that `toml_edit` parses from a text, or `None` where it
/// refuses the text.
pub uninterp spec fn parsed_document(text: Seq<char>) -> Option<toml_edit::DocumentMut>;

/// The entries of the document's root: each key with whether what it holds
/// is a table.
pub uninterp spec fn root_entries(doc: toml_edit::DocumentMut) -> Map<Seq<char>, bool>;

/// The entries of the table `access`: each key with whether what it holds
/// is a table. Where `access` is no table there are none.
pub uninterp spec fn access_entries(doc: toml_edit::DocumentMut) -> Map<Seq<char>, bool>;

/// The entries of the table `access.users`: each key with the text of its
/// value, or with `None` where the value is not a string. Where
/// `access.users` is no table there are none.
pub uninterp spec fn users_entries(doc: toml_edit::DocumentMut) -> Map<
    Seq<char>,
    Option<Seq<char>>,
>;

/// The document after an empty table was put under `access`.
pub uninterp spec fn with_access_table(doc: toml_edit::DocumentMut) -> toml_edit::DocumentMut;

/// The document after an empty table was put under `users` in `access`.
pub uninterp spec fn with_users_table(doc: toml_edit::DocumentMut) -> toml_edit::DocumentMut;

/// The document after `users[username]` was set to the string `secret`.
pub uninterp spec fn with_user(
    doc: toml_edit::DocumentMut,
    username: Seq<char>,
    secret: Seq<char>,
) -> toml_edit::DocumentMut;

/// The document after `username` was removed from `users`.
pub uninterp spec fn without_user(
    doc: toml_edit::DocumentMut,
    username: Seq<char>,
) -> toml_edit::DocumentMut;

/// The text that `toml_edit` writes for a document.
pub uninterp spec fn rendered(doc: toml_edit::DocumentMut) -> Seq<char>;

/// Whether the `toml` crate reads the text as a TOML value.
pub uninterp spec fn toml_accepts(text: Seq<char>) -> bool;

/// A table without entries.
pub open spec fn no_tables() -> Map<Seq<char>, bool> {
    Map::empty()
}

/// A table of credentials without entries.
pub open spec fn no_credentials() -> Map<Seq<char>, Option<Seq<char>>> {
    Map::empty()
}

/// What a table holds under a key: nothing, a table, or something else.
pub open spec fn slot(entries: Map<Seq<char>, bool>, key: Seq<char>) -> Option<bool> {
    if entries.dom().contains(key) {
        Some(entries[key])
    } else {
        None
    }
}

/// What the document holds under `access`.
pub open spec fn access_slot(doc: toml_edit::DocumentMut) -> Option<bool> {
    slot(root_entries(doc), "access"@)
}

/// What the table `access` holds under `users`.
pub open spec fn users_slot(doc: toml_edit::DocumentMut) -> Option<bool> {
    slot(access_entries(doc), "users"@)
}

/// Whether the document holds the table of credentials: a table under
/// `access` and in it a table under `users`.
pub open spec fn users_is_table(doc: toml_edit::DocumentMut) -> bool {
    access_slot(doc) == Some(true) && users_slot(doc) == Some(true)
}

/// Calls `str::parse::<toml_edit::DocumentMut>`. The same text always gives
/// the same answer, which `parsed_document` names; an error is handed back
/// as the parser's message.
#[verifier::external_body]
fn parse_document(content: &str) -> (res: Result<toml_edit::DocumentMut, String>)
    ensures
        match res {
            Ok(doc) => parsed_document(content@) == Some(doc),
            Err(_) => parsed_document(content@) is None,
        },
{
    content.parse::<toml_edit::DocumentMut>().map_err(|e| e.to_string())
}

/// Calls `Table::get` on the root and `Item::is_table` on what it finds:
/// whether something is under `access`, and whether it is a table.
#[verifier::external_body]
fn access_kind(doc: &toml_edit::DocumentMut) -> (res: Option<bool>)
    ensures
        res == access_slot(*doc),
{
    doc.get("access").map(|a| a.is_table())
}

/// Calls `Table::get` on the table `access` and `Item::is_table` on what it
/// finds: whether something is under `users`, and whether it is a table.
#[verifier::external_body]
fn users_kind(doc: &toml_edit::DocumentMut) -> (res: Option<bool>)
    requires
        access_slot(*doc) == Some(true),
    ensures
        res == users_slot(*doc),
{
    doc.get("access").and_then(|a| a.as_table()).and_then(|a| a.get("users")).map(
        |u| u.is_table(),
    )
}

/// Calls `Table::insert` on the root with a new table under `access`. The
/// table is marked implicit, so that it shows only through what it will
/// hold. The root then holds that table and what it held before; the new
/// table is empty.
#[verifier::external_body]
fn create_access_table(doc: &mut toml_edit::DocumentMut)
    requires
        access_slot(*old(doc)) is None,
    ensures
        *final(doc) == with_access_table(*old(doc)),
        root_entries(*final(doc)) == root_entries(*old(doc)).insert("access"@, true),
        access_entries(*final(doc)) == no_tables(),
{
    let mut access = toml_edit::Table::new();
    access.set_implicit(true);
    doc.insert("access", toml_edit::Item::Table(access));
}

/// Calls `Table::insert` on the table `access` with a new table under
/// `users`. The table `access` then holds that table and what it held
/// before, the root holds what it held, and the new table is empty.
#[verifier::external_body]
fn create_users_table(doc: &mut toml_edit::DocumentMut)
    requires
        access_slot(*old(doc)) == Some(true),
        users_slot(*old(doc)) is None,
    ensures
        *final(doc) == with_users_table(*old(doc)),
        root_entries(*final(doc)) == root_entries(*old(doc)),
        access_entries(*final(doc)) == access_entries(*old(doc)).insert("users"@, true),
        users_entries(*final(doc)) == no_credentials(),
{
    if let Some(access) = doc.get_mut("access").and_then(|a| a.as_table_mut()) {
        access.insert("users", toml_edit::table());
    }
}

/// Calls `Table::contains_key` on `access.users`: whether the table holds
/// an entry under `username`.
#[verifier::external_body]
fn users_contains_key(doc: &toml_edit::DocumentMut, username: &str) -> (res: bool)
    requires
        users_is_table(*doc),
    ensures
        res == users_entries(*doc).dom().contains(username@),
{
    doc.get("access").and_then(|a| a.as_table()).and_then(|a| a.get("users")).and_then(
        |u| u.as_table(),
    ).is_some_and(|users| users.contains_key(username))
}

/// Assigns through `IndexMut<&str>` of the table `access.users`: the entry
/// under `username` becomes the string `secret`, whether or not there was
/// one; the other entries and the tables above stay.
#[verifier::external_body]
fn users_insert(doc: &mut toml_edit::DocumentMut, username: &str, secret: &str)
    requires
        users_is_table(*old(doc)),
    ensures
        *final(doc) == with_user(*old(doc), username@, secret@),
        root_entries(*final(doc)) == root_entries(*old(doc)),
        access_entries(*final(doc)) == access_entries(*old(doc)),
        users_entries(*final(doc)) == users_entries(*old(doc)).insert(username@, Some(secret@)),
{
    let access = doc.get_mut("access").and_then(|a| a.as_table_mut());
    if let Some(users) = access.and_then(|a| a.get_mut("users")).and_then(|u| u.as_table_mut()) {
        users[username] = toml_edit::Item::Value(toml_edit::Value::from(secret));
    }
}

/// Calls `Table::remove` on `access.users`: the entry under `username`
/// leaves, if there was one; the other entries and the tables above stay.
#[verifier::external_body]
fn users_remove(doc: &mut toml_edit::DocumentMut, username: &str)
    requires
        users_is_table(*old(doc)),
    ensures
        *final(doc) == without_user(*old(doc), username@),
        root_entries(*final(doc)) == root_entries(*old(doc)),
        access_entries(*final(doc)) == access_entries(*old(doc)),
        users_entries(*final(doc)) == users_entries(*old(doc)).remove(username@),
{
    let access = doc.get_mut("access").and_then(|a| a.as_table_mut());
    if let Some(users) = access.and_then(|a| a.get_mut("users")).and_then(|u| u.as_table_mut()) {
        users.remove(username);
    }
}

/// Calls `to_string` of `toml_edit::DocumentMut`: the document as text.
#[verifier::external_body]
fn render_document(doc: &toml_edit::DocumentMut) -> (text: String)
    ensures
        text@ == rendered(*doc),
{
    doc.to_string()
}

/// Calls `toml::from_str::<toml::Value>`: whether the text is TOML. An
/// error is handed back as the parser's message.
#[verifier::external_body]
fn check_toml(content: &str) -> (res: Result<(), String>)
    ensures
        res is Ok <==> toml_accepts(content@),
{
    toml::from_str::<toml::Value>(content).map(|_| ()).map_err(|e| e.to_string())
}

/// The document made ready for a credential: where the table of credentials
/// is there, the document as it is; where `access` or `users` is missing,
/// the document with the missing tables made; and where something that is
/// no table stands in their place, the reason why it cannot be made ready.
pub open spec fn document_with_users_table(doc: toml_edit::DocumentMut) -> Result<
    toml_edit::DocumentMut,
    ConfigErrorKind,
> {
    match access_slot(doc) {
        None => Ok(with_users_table(with_access_table(doc))),
        Some(false) => Err(ConfigErrorKind::MissingAccess),
        Some(true) => match users_slot(doc) {
            None => Ok(with_users_table(doc)),
            Some(false) => Err(ConfigErrorKind::MissingUsers),
            Some(true) => Ok(doc),
        },
    }
}

/// The document with a user's entry set, where it can be made ready for
/// one.
pub open spec fn document_after_upsert(
    doc: toml_edit::DocumentMut,
    username: Seq<char>,
    secret: Seq<char>,
) -> Result<toml_edit::DocumentMut, ConfigErrorKind> {
    match document_with_users_table(doc) {
        Ok(ready) => Ok(with_user(ready, username, secret)),
        Err(kind) => Err(kind),
    }
}

/// What setting a user's entry in a document gives: the new text of the
/// file, or why there is none. The text is the document with the one entry
/// set, written out, and it is handed out only if it is TOML.
pub open spec fn document_upsert_outcome(
    doc: toml_edit::DocumentMut,
    username: Seq<char>,
    secret: Seq<char>,
) -> Result<Seq<char>, ConfigErrorKind> {
    match document_after_upsert(doc, username, secret) {
        Err(kind) => Err(kind),
        Ok(edited) => if toml_accepts(rendered(edited)) {
            Ok(rendered(edited))
        } else {
            Err(ConfigErrorKind::InvalidOutput)
        },
    }
}

/// The document that `upsert_user` writes out for a file's text, where it
/// gets that far.
pub open spec fn upserted_document(content: Seq<char>, username: Seq<char>, secret: Seq<char>) -> Option<
    toml_edit::DocumentMut,
> {
    match parsed_document(content) {
        None => None,
        Some(doc) => match document_after_upsert(doc, username, secret) {
            Ok(edited) => Some(edited),
            Err(_) => None,
        },
    }
}

/// What `upsert_user` gives for a file's text.
pub open spec fn upsert_outcome(content: Seq<char>, username: Seq<char>, secret: Seq<char>) -> Result<
    Seq<char>,
    ConfigErrorKind,
> {
    match parsed_document(content) {
        None => Err(ConfigErrorKind::Unparsable),
        Some(doc) => document_upsert_outcome(doc, username, secret),
    }
}

/// The credentials that a document holds: the entries of its table of
/// credentials, and none where it has no such table.
pub open spec fn credentials(doc: toml_edit::DocumentMut) -> Map<Seq<char>, Option<Seq<char>>> {
    if users_is_table(doc) {
        users_entries(doc)
    } else {
        no_credentials()
    }
}

/// What became of a user's entry, and of the file.
pub ghost struct RemovalView {
    /// Whether the table held the user.
    pub existed: bool,
    /// The new text of the file; `None` where the file is to stay as it is.
    pub new_content: Option<Seq<char>>,
}

/// What removing a user's entry from a document gives. For a user that the
/// document does not hold, be it that the table of credentials is missing
/// or that the table lacks the user, there is no new text: the file stays
/// as it is. Something that is no table in the place of `access` or `users`
/// is refused.
pub open spec fn document_remove_outcome(doc: toml_edit::DocumentMut, username: Seq<char>) -> Result<
    RemovalView,
    ConfigErrorKind,
> {
    if access_slot(doc) == Some(false) {
        Err(ConfigErrorKind::MissingAccess)
    } else if access_slot(doc) == Some(true) && users_slot(doc) == Some(false) {
        Err(ConfigErrorKind::MissingUsers)
    } else if !credentials(doc).dom().contains(username) {
        Ok(RemovalView { existed: false, new_content: None })
    } else {
        let text = rendered(without_user(doc, username));
        if toml_accepts(text) {
            Ok(RemovalView { existed: true, new_content: Some(text) })
        } else {
            Err(ConfigErrorKind::InvalidOutput)
        }
    }
}

/// What `remove_user` gives for a file's text.
pub open spec fn remove_outcome(content: Seq<char>, username: Seq<char>) -> Result<
    RemovalView,
    ConfigErrorKind,
> {
    match parsed_document(content) {
        None => Err(ConfigErrorKind::Unparsable),
        Some(doc) => document_remove_outcome(doc, username),
    }
}

/// The file's text once the outcome of an edit is carried out: the new text
/// where there is one, the old text where there is none.
pub open spec fn content_after(content: Seq<char>, new_content: Option<Seq<char>>) -> Seq<char> {
    match new_content {
        Some(text) => text,
        None => content,
    }
}

/// What became of a user's entry, and of the file.
#[derive(Debug)]
pub struct UserRemoval {
    /// Whether the table held the user.
    pub existed: bool,
    /// The new text of the file; `None` where the file is to stay as it is.
    pub new_content: Option<String>,
}

impl View for UserRemoval {
    type V = RemovalView;

    open spec fn view(&self) -> RemovalView {
        RemovalView { existed: self.existed, new_content: opt_text(self.new_content) }
    }
}

/// The view of a text or a configuration error.
pub open spec fn text_or_kind(r: Result<String, TelemtConfigError>) -> Result<
    Seq<char>,
    ConfigErrorKind,
> {
    match r {
        Ok(text) => Ok(text@),
        Err(e) => Err(e.kind),
    }
}

/// The view of what a removal gives.
pub open spec fn removal_view(r: Result<UserRemoval, TelemtConfigError>) -> Result<
    RemovalView,
    ConfigErrorKind,
> {
    match r {
        Ok(removal) => Ok(removal@),
        Err(e) => Err(e.kind),
    }
}

/// Makes the document ready for a credential: a missing `access` or `users`
/// table is made, and something else in their place is refused. A document
/// that is refused is left as it is. The table of credentials of a document
/// made ready holds what the document held, which is nothing where the
/// table had to be made.
fn ensure_users_table(doc: &mut toml_edit::DocumentMut) -> (res: Result<(), TelemtConfigError>)
    ensures
        match document_with_users_table(*old(doc)) {
            Ok(ready) => res is Ok && *final(doc) == ready && users_is_table(ready)
                && users_entries(ready) == credentials(*old(doc)),
            Err(kind) => res matches Err(e) && e.kind == kind && *final(doc) == *old(doc),
        },
{
    match access_kind(doc) {
        None => {
            create_access_table(doc);
            assert(access_slot(*doc) == Some(true));
            assert(users_slot(*doc) is None);
            create_users_table(doc);
            Ok(())
        },
        Some(false) => Err(TelemtConfigError::of_kind(ConfigErrorKind::MissingAccess)),
        Some(true) => match users_kind(doc) {
            None => {
                create_users_table(doc);
                Ok(())
            },
            Some(false) => Err(TelemtConfigError::of_kind(ConfigErrorKind::MissingUsers)),
            Some(true) => Ok(()),
        },
    }
}

/// Sets one user's entry in a parsed document and writes the document out.
/// A table that is missing on the way to the entry is made. The credentials
/// of the document are then the old ones with that one set, and the text
/// is handed out only if it is TOML. A document that is refused is left as
/// it is.
pub fn upsert_user_in_document(doc: &mut toml_edit::DocumentMut, username: &str, secret: &str) -> (res:
    Result<String, TelemtConfigError>)
    ensures
        text_or_kind(res) == document_upsert_outcome(*old(doc), username@, secret@),
        match document_after_upsert(*old(doc), username@, secret@) {
            Ok(edited) => *final(doc) == edited && credentials(edited) == credentials(
                *old(doc),
            ).insert(username@, Some(secret@)),
            Err(_) => *final(doc) == *old(doc),
        },
{
    match ensure_users_table(doc) {
        Err(e) => {
            return Err(e);
        },
        Ok(()) => {},
    }
    users_insert(doc, username, secret);
    let text = render_document(doc);
    match check_toml(text.as_str()) {
        Ok(()) => Ok(text),
        Err(detail) => Err(TelemtConfigError { kind: ConfigErrorKind::InvalidOutput, detail: detail }),
    }
}

/// Removes one user's entry from a parsed document and, where there was
/// one, writes the document out. For a user that the document does not
/// hold no text is written, and the document is left as it is; so is a
/// document that is refused.
pub fn remove_user_in_document(doc: &mut toml_edit::DocumentMut, username: &str) -> (res: Result<
    UserRemoval,
    TelemtConfigError,
>)
    ensures
        removal_view(res) == document_remove_outcome(*old(doc), username@),
        credentials(*old(doc)).dom().contains(username@) ==> *final(doc) == without_user(
            *old(doc),
            username@,
        ) && credentials(*final(doc)) == credentials(*old(doc)).remove(username@),
        !credentials(*old(doc)).dom().contains(username@) ==> *final(doc) == *old(doc),
{
    match access_kind(doc) {
        None => {
            return Ok(UserRemoval { existed: false, new_content: None });
        },
        Some(false) => {
            return Err(TelemtConfigError::of_kind(ConfigErrorKind::MissingAccess));
        },
        Some(true) => {},
    }
    match users_kind(doc) {
        None => {
            return Ok(UserRemoval { existed: false, new_content: None });
        },
        Some(false) => {
            return Err(TelemtConfigError::of_kind(ConfigErrorKind::MissingUsers));
        },
        Some(true) => {},
    }
    if !users_contains_key(doc, username) {
        return Ok(UserRemoval { existed: false, new_content: None });
    }
    users_remove(doc, username);
    let text = render_document(doc);
    match check_toml(text.as_str()) {
        Ok(()) => Ok(UserRemoval { existed: true, new_content: Some(text) }),
        Err(detail) => Err(TelemtConfigError { kind: ConfigErrorKind::InvalidOutput, detail: detail }),
    }
}

/// The name of the file that a new text is written to before it takes the
/// configuration's place: it lies beside the configuration and carries the
/// writer's process id and a number that differs from write to write.
pub open spec fn temp_file_name_spec(process_id: u32, nonce: u128) -> Seq<char> {
    ".telemt.toml."@ + nat_decimal(process_id as nat) + "."@ + nat_decimal(nonce as nat)
}

/// The name of the file that a new text is written to before it takes the
/// configuration's place.
pub fn temp_file_name(process_id: u32, nonce: u128) -> (name: String)
    ensures
        name@ == temp_file_name_spec(process_id, nonce),
{
    let mut name = String::from_str(".telemt.toml.");
    push_u128_decimal(&mut name, process_id as u128);
    name.append(".");
    push_u128_decimal(&mut name, nonce);
    name
}

/// The proxy's configuration file: where it lies, and what is read from and
/// changed in its text.
#[derive(Debug)]
pub struct TelemtConfig {
    path: String,
}

impl TelemtConfig {
    /// The configuration at `path`.
    pub fn new(path: &str) -> (config: TelemtConfig)
        ensures
            config.path_spec() == path@,
    {
        TelemtConfig { path: path.to_owned() }
    }

    /// Where the file lies.
    pub closed spec fn path_spec(&self) -> Seq<char> {
        self.path@
    }

    /// Where the file lies.
    pub fn path(&self) -> (path: &str)
        ensures
            path@ == self.path_spec(),
    {
        self.path.as_str()
    }

    /// The link parameters that the parsed file gives: the first announced
    /// address, the port or 443, and the TLS domain. A file that lacks an
    /// address or the domain is refused.
    pub fn read_link_params(&self, raw: &TelemtConfigRaw) -> (res: Result<
        TelemtLinkParams,
        TelemtConfigError,
    >)
        ensures
            link_params_view(res) == link_params_spec(raw@),
    {
        let port = match &raw.server {
            Some(server) => match server.port {
                Some(p) => p,
                None => DEFAULT_PORT,
            },
            None => DEFAULT_PORT,
        };
        let host = match &raw.server {
            Some(server) => match &server.listeners {
                Some(list) => {
                    let found = first_announced(list);
                    proof {
                        let ls = Seq::new(list@.len(), |i: int| list@[i]@);
                        assert(raw@.server->0.listeners == Some(ls));
                        if found is Some {
                            let h = found->0;
                            let i = choose|i: int|
                                is_first_announcing(ls, i) && listener_address(ls[i]) == Some(h@);
                            let j = choose|j: int| is_first_announcing(ls, j);
                            lemma_first_announcing_unique(ls, i, j);
                        }
                    }
                    found
                },
                None => None,
            },
            None => None,
        };
        let host = match host {
            Some(h) => h,
            None => {
                return Err(TelemtConfigError::of_kind(ConfigErrorKind::MissingAnnounce));
            },
        };
        let tls_domain = match &raw.censorship {
            Some(section) => clone_opt_text(&section.tls_domain),
            None => None,
        };
        match tls_domain {
            Some(domain) => Ok(TelemtLinkParams { host: host, port: port, tls_domain: domain }),
            None => Err(TelemtConfigError::of_kind(ConfigErrorKind::MissingTlsDomain)),
        }
    }

    /// The file's text with `username` set to `secret` in `[access.users]`,
    /// added or replaced; a file without that table gets it. Everything
    /// else is left to the document: the edit is made in it, not in a copy
    /// of its values.
    pub fn upsert_user(&self, content: &str, username: &str, secret: &str) -> (res: Result<
        String,
        TelemtConfigError,
    >)
        ensures
            text_or_kind(res) == upsert_outcome(content@, username@, secret@),
            upserted_document(content@, username@, secret@) matches Some(edited) ==> credentials(
                edited,
            ) == credentials(parsed_document(content@)->0).insert(username@, Some(secret@)),
    {
        match parse_document(content) {
            Err(detail) => Err(
                TelemtConfigError { kind: ConfigErrorKind::Unparsable, detail: detail },
            ),
            Ok(doc) => {
                let mut doc = doc;
                upsert_user_in_document(&mut doc, username, secret)
            },
        }
    }

    /// The file's text without `username` in `[access.users]`, and whether
    /// the user was there. For a user that was not there, or where the
    /// table itself is missing, no text is made: the file stays as it is.
    pub fn remove_user(&self, content: &str, username: &str) -> (res: Result<
        UserRemoval,
        TelemtConfigError,
    >)
        ensures
            removal_view(res) == remove_outcome(content@, username@),
            removal_view(res) matches Ok(removal) ==> removal.existed == credentials(
                parsed_document(content@)->0,
            ).dom().contains(username@),
            removal_view(res) matches Ok(removal) ==> removal.existed ==> credentials(
                without_user(parsed_document(content@)->0, username@),
            ) == credentials(parsed_document(content@)->0).remove(username@),
    {
        match parse_document(content) {
            Err(detail) => Err(
                TelemtConfigError { kind: ConfigErrorKind::Unparsable, detail: detail },
            ),
            Ok(doc) => {
                let mut doc = doc;
                remove_user_in_document(&mut doc, username)
            },
        }
    }
}

} // verus!
