//! The files that accounts are kept in: JSON documents with one account or with
//! an array of accounts.

use crate::account::{account_kind, kind_in, AccountType, AccountView, SekaiAccount};
use crate::config::ServerRegion;
use crate::error::{AppError, ErrorView};
use crate::json::{
    json_array, json_document, json_from_slice, json_is_object, json_text, json_to_string,
    json_view, json_views, JsonView,
};
use crate::text::{joined, same_text, texts};
use serde_json::Value;
use vstd::prelude::*;

verus! {

/// Whether a file with this extension keeps accounts.
pub fn is_account_file(extension: Option<&str>) -> (r: bool)
    ensures
        r == (extension matches Some(e) && e@ == "json"@),
{
    match extension {
        Some(e) => same_text(e, "json"),
        None => false,
    }
}

// ---------------------------------------------------------------------------
// One file
// ---------------------------------------------------------------------------

/// The documents of the accounts in a file.
#[derive(Debug)]
pub struct AccountFile {
    /// The text of each account's document.
    pub documents: Vec<String>,
    /// The file has the form of an account file.
    pub complete: bool,
}

/// The documents of the accounts in a file: the items of an array, or an object
/// by itself. Anything else is no account file.
pub open spec fn account_documents(document: JsonView) -> (Seq<JsonView>, bool) {
    match document {
        JsonView::Array(items) => (items, true),
        JsonView::Object(_) => (seq![document], true),
        _ => (Seq::empty(), false),
    }
}

/// The texts of documents.
pub open spec fn document_texts(documents: Seq<JsonView>) -> Seq<Seq<char>> {
    documents.map_values(|document: JsonView| json_text(document))
}

/// The file holds these documents.
pub open spec fn holds_documents(file: AccountFile, document: JsonView) -> bool {
    &&& texts(file.documents@) == document_texts(account_documents(document).0)
    &&& file.complete == account_documents(document).1
}

/// Takes a file's document apart into those of its accounts.
pub fn split_accounts(value: &Value) -> (r: AccountFile)
    ensures
        holds_documents(r, json_view(*value)),
{
    let mut documents: Vec<String> = Vec::new();
    if let Some(items) = json_array(value) {
        let mut i: usize = 0;
        while i < items.len()
            invariant
                i <= items@.len(),
                documents@.len() == i,
                forall|k: int|
                    0 <= k < i ==> (#[trigger] documents@[k])@ == json_text(json_view(items@[k])),
            decreases items@.len() - i,
        {
            if let Some(text) = json_to_string(&items[i]) {
                documents.push(text);
            }
            i += 1;
        }
        proof {
            assert(texts(documents@) =~= document_texts(json_views(items@)));
        }
        AccountFile { documents, complete: true }
    } else if json_is_object(value) {
        if let Some(text) = json_to_string(value) {
            documents.push(text);
        }
        proof {
            assert(texts(documents@) =~= document_texts(seq![json_view(*value)]));
        }
        AccountFile { documents, complete: true }
    } else {
        proof {
            assert(texts(documents@) =~= document_texts(Seq::<JsonView>::empty()));
        }
        AccountFile { documents, complete: false }
    }
}

/// Reads the documents of the accounts in a file.
pub fn parse_account_file(data: &[u8]) -> (r: Result<AccountFile, AppError>)
    ensures
        match json_document(data@) {
            Ok(document) => r is Ok && holds_documents(r->Ok_0, document),
            Err(message) => r is Err && r->Err_0@ == ErrorView::ParseError(
                "JSON parse error: "@ + message,
            ),
        },
{
    match json_from_slice(data) {
        Ok(value) => Ok(split_accounts(&value)),
        Err(message) => Err(AppError::ParseError(joined("JSON parse error: ", message.as_str()))),
    }
}

/// The account that a document holds, with the user's number that its token
/// tells where it tells one; or nothing where the document is no account of the
/// region's kind.
pub fn parse_account_value(
    region: ServerRegion,
    parsed: Result<AccountType, String>,
    token_user_id: Option<String>,
) -> (r: Option<AccountType>)
    ensures
        match parsed {
            Ok(account) => if account.details().kind == kind_in(region) {
                match token_user_id {
                    Some(user_id) => r is Some && r->Some_0.details() == (AccountView {
                        user_id: user_id@,
                        ..account.details()
                    }),
                    None => r == Some(account),
                }
            } else {
                r is None
            },
            Err(_) => r is None,
        },
{
    match parsed {
        Ok(account) => {
            if account.kind() != account_kind(region) {
                return None;
            }
            let mut account = account;
            if let Some(user_id) = token_user_id {
                account.set_user_id(user_id);
            }
            Some(account)
        },
        Err(_) => None,
    }
}

// ---------------------------------------------------------------------------
// All files
// ---------------------------------------------------------------------------

/// What was found in one place of the account directory.
#[derive(Debug)]
pub enum AccountEntry {
    /// Something that keeps no accounts.
    Ignored,
    /// Something that could not be read, or is no account file.
    Failed,
    /// An account file: for each of its documents the account, where it is one,
    /// and whether the file has the form of an account file.
    Parsed { accounts: Vec<Option<AccountType>>, complete: bool },
}

/// What the account directory holds.
#[derive(Debug)]
pub struct ParsedAccounts {
    pub accounts: Vec<AccountType>,
    /// Nothing was left out that should have been an account.
    pub complete: bool,
}

/// The accounts among the documents of a file, in their order.
pub open spec fn found(accounts: Seq<Option<AccountType>>) -> Seq<AccountType>
    decreases accounts.len(),
{
    if accounts.len() == 0 {
        Seq::empty()
    } else {
        match accounts.last() {
            Some(account) => found(accounts.drop_last()).push(account),
            None => found(accounts.drop_last()),
        }
    }
}

/// Every document of a file is an account.
pub open spec fn all_found(accounts: Seq<Option<AccountType>>) -> bool {
    forall|i: int| 0 <= i < accounts.len() ==> (#[trigger] accounts[i]) is Some
}

/// The accounts that were found in one place.
pub open spec fn entry_accounts(entry: AccountEntry) -> Seq<AccountType> {
    match entry {
        AccountEntry::Parsed { accounts, .. } => found(accounts@),
        _ => Seq::empty(),
    }
}

/// Nothing was left out in this place.
pub open spec fn entry_complete(entry: AccountEntry) -> bool {
    match entry {
        AccountEntry::Ignored => true,
        AccountEntry::Failed => false,
        AccountEntry::Parsed { accounts, complete } => complete && all_found(accounts@),
    }
}

/// The accounts that were found in all places, in their order.
pub open spec fn directory_accounts(entries: Seq<AccountEntry>) -> Seq<AccountType>
    decreases entries.len(),
{
    if entries.len() == 0 {
        Seq::empty()
    } else {
        directory_accounts(entries.drop_last()) + entry_accounts(entries.last())
    }
}

/// Nothing was left out in any place.
pub open spec fn directory_complete(entries: Seq<AccountEntry>) -> bool {
    forall|i: int| 0 <= i < entries.len() ==> entry_complete(#[trigger] entries[i])
}

/// Adds the accounts among the documents of a file; says whether all of them
/// are.
fn append_found(accounts: &mut Vec<AccountType>, file: Vec<Option<AccountType>>) -> (r: bool)
    ensures
        final(accounts)@ == old(accounts)@ + found(file@),
        r == all_found(file@),
{
    let ghost before = accounts@;
    let ghost documents = file@;
    let mut complete = true;
    proof {
        assert(before + found(documents.take(0)) =~= before);
    }
    for document in it: file
        invariant
            it.seq() == documents,
            accounts@ == before + found(documents.take(it.index() as int)),
            complete == all_found(documents.take(it.index() as int)),
    {
        let ghost done = it.index() as int;
        proof {
            assert(documents.take(done + 1).drop_last() =~= documents.take(done));
            assert(documents.take(done + 1).last() == documents[done]);
        }
        match document {
            Some(account) => {
                accounts.push(account);
            },
            None => {
                complete = false;
            },
        }
        proof {
            assert(accounts@ =~= before + found(documents.take(done + 1)));
            assert(complete == all_found(documents.take(done + 1))) by {
                assert(forall|i: int|
                    0 <= i < done ==> documents.take(done + 1)[i] == #[trigger] documents.take(
                        done,
                    )[i]);
                assert(documents.take(done + 1)[done] == documents[done]);
            }
        }
    }
    proof {
        assert(documents.take(documents.len() as int) =~= documents);
    }
    complete
}

/// `r` is what was read of the account directory: of a directory that does not
/// exist nothing, and one that cannot be listed is an error.
pub open spec fn is_directory_read(
    listing: Result<Option<Seq<AccountEntry>>, Seq<char>>,
    r: Result<ParsedAccounts, AppError>,
) -> bool {
    match listing {
        Ok(None) => r is Ok && r->Ok_0.accounts@.len() == 0 && r->Ok_0.complete,
        Ok(Some(entries)) => {
            &&& r is Ok
            &&& r->Ok_0.accounts@ == directory_accounts(entries)
            &&& r->Ok_0.complete == directory_complete(entries)
        },
        Err(message) => r is Err && r->Err_0@ == ErrorView::ParseError(
            "Failed to read account dir: "@ + message,
        ),
    }
}

/// A listing of the account directory, with its words as characters.
pub open spec fn listing_view(listing: Result<Option<Vec<AccountEntry>>, String>) -> Result<
    Option<Seq<AccountEntry>>,
    Seq<char>,
> {
    match listing {
        Ok(None) => Ok(None),
        Ok(Some(entries)) => Ok(Some(entries@)),
        Err(message) => Err(message@),
    }
}

/// Puts together what was found in the account directory. It may not exist; it
/// may not be possible to list it, and there are words for why.
pub fn parse_accounts(listing: Result<Option<Vec<AccountEntry>>, String>) -> (r: Result<
    ParsedAccounts,
    AppError,
>)
    ensures
        is_directory_read(listing_view(listing), r),
{
    let entries = match listing {
        Ok(Some(entries)) => entries,
        Ok(None) => {
            return Ok(ParsedAccounts { accounts: Vec::new(), complete: true });
        },
        Err(message) => {
            return Err(
                AppError::ParseError(joined("Failed to read account dir: ", message.as_str())),
            );
        },
    };
    let ghost all = entries@;
    let mut accounts: Vec<AccountType> = Vec::new();
    let mut complete = true;
    for entry in it: entries
        invariant
            it.seq() == all,
            accounts@ == directory_accounts(all.take(it.index() as int)),
            complete == directory_complete(all.take(it.index() as int)),
    {
        let ghost done = it.index() as int;
        let ghost before = accounts@;
        proof {
            assert(all.take(done + 1).drop_last() =~= all.take(done));
            assert(all.take(done + 1).last() == all[done]);
        }
        match entry {
            AccountEntry::Ignored => {},
            AccountEntry::Failed => {
                complete = false;
            },
            AccountEntry::Parsed { accounts: file, complete: file_complete } => {
                let all_parsed = append_found(&mut accounts, file);
                complete = complete && file_complete && all_parsed;
            },
        }
        proof {
            assert(accounts@ =~= before + entry_accounts(all[done]));
            assert(complete == directory_complete(all.take(done + 1))) by {
                assert(forall|i: int|
                    0 <= i < done ==> all.take(done + 1)[i] == #[trigger] all.take(done)[i]);
                assert(all.take(done + 1)[done] == all[done]);
            }
        }
    }
    proof {
        assert(all.take(all.len() as int) =~= all);
    }
    Ok(ParsedAccounts { accounts, complete })
}

// ---------------------------------------------------------------------------
// Laws
// ---------------------------------------------------------------------------

/// A file whose documents are all accounts yields as many accounts as it has
/// documents, and only such a file does.
pub proof fn complete_files_lose_no_account(accounts: Seq<Option<AccountType>>)
    ensures
        found(accounts).len() <= accounts.len(),
        all_found(accounts) <==> found(accounts).len() == accounts.len(),
    decreases accounts.len(),
{
    if accounts.len() > 0 {
        let front = accounts.drop_last();
        complete_files_lose_no_account(front);
        assert(all_found(accounts) <==> all_found(front) && accounts.last() is Some) by {
            if all_found(front) && accounts.last() is Some {
                assert forall|i: int| 0 <= i < accounts.len() implies (
                #[trigger] accounts[i]) is Some by {
                    if i < front.len() {
                        assert(front[i] is Some);
                    }
                }
            }
            if all_found(accounts) {
                assert forall|i: int| 0 <= i < front.len() implies (#[trigger] front[i]) is Some by {
                    assert(accounts[i] is Some);
                }
            }
        }
    }
}

/// One place that could not be read makes the whole directory incomplete,
/// wherever it stands and whatever else was found.
pub proof fn one_failure_makes_the_directory_incomplete(entries: Seq<AccountEntry>, i: int)
    requires
        0 <= i < entries.len(),
        entries[i] is Failed,
    ensures
        !directory_complete(entries),
{
    assert(!entry_complete(entries[i]));
}

/// An account file is an array of accounts or one account; anything else is no
/// account file and holds none.
pub proof fn account_files_are_arrays_or_objects(
    document: JsonView,
    items: Seq<JsonView>,
    file: AccountFile,
)
    requires
        holds_documents(file, document),
    ensures
        file.complete <==> document is Array || document is Object,
        document == JsonView::Array(items) ==> file.documents@.len() == items.len() && forall|i: int|
            0 <= i < items.len() ==> (#[trigger] file.documents@[i])@ == json_text(items[i]),
        document is Object ==> file.documents@.len() == 1 && file.documents@[0]@ == json_text(
            document,
        ),
        !(document is Array) && !(document is Object) ==> file.documents@.len() == 0,
{
    let documents = account_documents(document).0;
    assert(texts(file.documents@).len() == file.documents@.len());
    assert(document_texts(documents).len() == documents.len());
    assert forall|i: int| 0 <= i < documents.len() implies (#[trigger] file.documents@[i])@
        == json_text(documents[i]) by {
        assert(texts(file.documents@)[i] == file.documents@[i]@);
        assert(document_texts(documents)[i] == json_text(documents[i]));
    }
}

/// The accounts of a file are found one by one, in their order, and each document
/// that is none is left out.
pub proof fn accounts_are_found_one_by_one(
    a: Seq<Option<AccountType>>,
    b: Seq<Option<AccountType>>,
    account: AccountType,
)
    ensures
        found(Seq::<Option<AccountType>>::empty()).len() == 0,
        found(seq![Some(account)]) == seq![account],
        found(seq![None::<AccountType>]).len() == 0,
        found(a + b) == found(a) + found(b),
    decreases b.len(),
{
    let none = Seq::<Option<AccountType>>::empty();
    assert(found(none).len() == 0);
    assert(seq![Some(account)].drop_last() =~= none);
    assert(found(seq![Some(account)]) =~= seq![account]);
    assert(seq![None::<AccountType>].drop_last() =~= none);
    if b.len() == 0 {
        assert(a + b =~= a);
        assert(found(a) + found(b) =~= found(a));
    } else {
        accounts_are_found_one_by_one(a, b.drop_last(), account);
        assert((a + b).drop_last() =~= a + b.drop_last());
        assert((a + b).last() == b.last());
        assert(found(a + b) =~= found(a) + found(b));
    }
}

/// The accounts of a directory are those of its files, in their order; what is
/// ignored or failed brings none.
pub proof fn directories_hold_the_accounts_of_their_files(
    a: Seq<AccountEntry>,
    b: Seq<AccountEntry>,
    accounts: Vec<Option<AccountType>>,
    complete: bool,
)
    ensures
        directory_accounts(Seq::<AccountEntry>::empty()).len() == 0,
        directory_accounts(seq![AccountEntry::Ignored]).len() == 0,
        directory_accounts(seq![AccountEntry::Failed]).len() == 0,
        directory_accounts(seq![AccountEntry::Parsed { accounts, complete }]) == found(accounts@),
        directory_accounts(a + b) == directory_accounts(a) + directory_accounts(b),
    decreases b.len(),
{
    let none = Seq::<AccountEntry>::empty();
    let parsed = seq![AccountEntry::Parsed { accounts, complete }];
    assert(directory_accounts(none).len() == 0);
    assert(seq![AccountEntry::Ignored].drop_last() =~= none);
    assert(seq![AccountEntry::Failed].drop_last() =~= none);
    assert(parsed.drop_last() =~= none);
    assert(directory_accounts(parsed) =~= found(accounts@));
    if b.len() == 0 {
        assert(a + b =~= a);
        assert(directory_accounts(a) + directory_accounts(b) =~= directory_accounts(a));
    } else {
        directories_hold_the_accounts_of_their_files(a, b.drop_last(), accounts, complete);
        assert((a + b).drop_last() =~= a + b.drop_last());
        assert((a + b).last() == b.last());
        assert(directory_accounts(a + b) =~= directory_accounts(a) + directory_accounts(b));
    }
}

/// A directory is complete exactly where nothing in it failed, and every account
/// file in it has the form of one and holds accounts only.
pub proof fn complete_directories_lose_nothing(entries: Seq<AccountEntry>)
    ensures
        directory_complete(entries) <==> forall|i: int|
            0 <= i < entries.len() ==> !((#[trigger] entries[i]) is Failed) && (
            entries[i] is Parsed ==> entries[i]->complete && forall|k: int|
                0 <= k < entries[i]->accounts@.len() ==> (
                #[trigger] entries[i]->accounts@[k]) is Some),
{
    if directory_complete(entries) {
        assert forall|i: int| 0 <= i < entries.len() implies !((#[trigger] entries[i]) is Failed)
            && (entries[i] is Parsed ==> entries[i]->complete && forall|k: int|
            0 <= k < entries[i]->accounts@.len() ==> (
            #[trigger] entries[i]->accounts@[k]) is Some) by {
            assert(entry_complete(entries[i]));
        }
    }
}

/// What was read of the account directory: nothing of one that does not exist,
/// an error of one that cannot be listed, and else what stands in it.
pub proof fn directories_are_read_as_they_are(
    entries: Vec<AccountEntry>,
    words: String,
    r: Result<ParsedAccounts, AppError>,
)
    ensures
        is_directory_read(listing_view(Ok(None)), r) ==> r is Ok && r->Ok_0.accounts@.len() == 0
            && r->Ok_0.complete,
        is_directory_read(listing_view(Err(words)), r) ==> r is Err && (
        r->Err_0 matches AppError::ParseError(message) && message@
            == "Failed to read account dir: "@ + words@),
        is_directory_read(listing_view(Ok(Some(entries))), r) ==> r is Ok && r->Ok_0.accounts@
            == directory_accounts(entries@) && r->Ok_0.complete == directory_complete(entries@),
{
}

} // verus!
