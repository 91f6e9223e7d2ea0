//! Extracting login credentials from the items of a form body.
//!
//! A login form carries a user name under the key `username` (or its alias
//! `email`), a password under `password`, and an optional `remember` flag
//! whose value `on` asks for a persistent session.  Unknown keys are ignored
//! and a repeated key keeps its last value.  A form whose user name or
//! password is missing or empty is rejected.

use crate::form::FormItem;
use crate::form::items_view;
use crate::form::url_decoded;
use vstd::prelude::*;

verus! {

/// The decoded key `username`.
pub open spec fn username_key() -> Seq<u8> {
    seq![117u8, 115u8, 101u8, 114u8, 110u8, 97u8, 109u8, 101u8]
}

/// The decoded key `email`, an alias of `username`.
pub open spec fn email_key() -> Seq<u8> {
    seq![101u8, 109u8, 97u8, 105u8, 108u8]
}

/// The decoded key `password`.
pub open spec fn password_key() -> Seq<u8> {
    seq![112u8, 97u8, 115u8, 115u8, 119u8, 111u8, 114u8, 100u8]
}

/// The decoded key `remember`.
pub open spec fn remember_key() -> Seq<u8> {
    seq![114u8, 101u8, 109u8, 101u8, 109u8, 98u8, 101u8, 114u8]
}

/// The value `on` that sets the `remember` flag.
pub open spec fn on_value() -> Seq<u8> {
    seq![111u8, 110u8]
}

/// What a form's items say about the three credential fields.
pub ghost struct CredentialsView {
    /// The decoded user name, empty where none was given.
    pub username: Seq<u8>,
    /// The decoded password, empty where none was given.
    pub password: Seq<u8>,
    /// Whether a persistent session was asked for.
    pub remember: bool,
}

/// The credential fields before any item is read.
pub open spec fn empty_credentials() -> CredentialsView {
    CredentialsView { username: Seq::empty(), password: Seq::empty(), remember: false }
}

/// Reads one decoded item into the credential fields.
pub open spec fn creds_step(acc: CredentialsView, item: (Seq<u8>, Seq<u8>)) -> CredentialsView {
    let k = url_decoded(item.0);
    let v = url_decoded(item.1);
    if k == username_key() || k == email_key() {
        CredentialsView { username: v, ..acc }
    } else if k == password_key() {
        CredentialsView { password: v, ..acc }
    } else if k == remember_key() {
        CredentialsView { remember: v == on_value(), ..acc }
    } else {
        acc
    }
}

/// Reads the items in order into the credential fields `acc`.
pub open spec fn creds_fold(
    items: Seq<(Seq<u8>, Seq<u8>)>,
    acc: CredentialsView,
) -> CredentialsView
    decreases items.len(),
{
    if items.len() == 0 {
        acc
    } else {
        creds_fold(items.skip(1), creds_step(acc, items[0]))
    }
}

/// The credential fields that the items of a form carry.
pub open spec fn credentials_of(items: Seq<(Seq<u8>, Seq<u8>)>) -> CredentialsView {
    creds_fold(items, empty_credentials())
}

proof fn lemma_creds_fold_push(
    items: Seq<(Seq<u8>, Seq<u8>)>,
    item: (Seq<u8>, Seq<u8>),
    acc: CredentialsView,
)
    ensures
        creds_fold(items.push(item), acc) == creds_step(creds_fold(items, acc), item),
    decreases items.len(),
{
    assert(creds_fold(items.push(item), acc) == creds_fold(
        items.push(item).skip(1),
        creds_step(acc, items.push(item)[0]),
    ));
    if items.len() == 0 {
        assert(items.push(item)[0] == item);
        assert(items.push(item).skip(1) =~= Seq::<(Seq<u8>, Seq<u8>)>::empty());
        assert(creds_fold(Seq::<(Seq<u8>, Seq<u8>)>::empty(), creds_step(acc, item))
            == creds_step(acc, item));
        assert(creds_fold(items, acc) == acc);
    } else {
        assert(items.push(item)[0] == items[0]);
        assert(items.push(item).skip(1) =~= items.skip(1).push(item));
        lemma_creds_fold_push(items.skip(1), item, creds_step(acc, items[0]));
        assert(creds_fold(items, acc) == creds_fold(items.skip(1), creds_step(acc, items[0])));
    }
}

/// A repeated key keeps its last value: appending an item for one of the
/// credential fields overrides whatever earlier items said about that field.
pub proof fn lemma_last_value_wins(items: Seq<(Seq<u8>, Seq<u8>)>, item: (Seq<u8>, Seq<u8>))
    ensures
        url_decoded(item.0) == username_key() || url_decoded(item.0) == email_key()
            ==> credentials_of(items.push(item)).username == url_decoded(item.1),
        url_decoded(item.0) == password_key() ==> credentials_of(items.push(item)).password
            == url_decoded(item.1),
        url_decoded(item.0) == remember_key() ==> credentials_of(items.push(item)).remember == (
        url_decoded(item.1) == on_value()),
{
    lemma_creds_fold_push(items, item, empty_credentials());
    assert(password_key()[0] == 112 && username_key()[0] == 117 && remember_key()[0] == 114);
    assert(email_key().len() == 5);
}

/// The credentials a login form carries: a user name, a password, and whether
/// a persistent session was asked for.
#[derive(Debug)]
pub struct Credentials {
    /// The decoded user name.
    pub username: Vec<u8>,
    /// The decoded password.
    pub password: Vec<u8>,
    /// Whether a persistent session was asked for.
    pub remember: bool,
}

/// Why a form's items hold no usable credentials.
#[derive(Clone, Copy, Debug, PartialEq, Eq, Structural)]
pub enum CredentialsError {
    /// The user name or the password is missing or empty.
    MissingField,
}

impl CredentialsError {
    /// A line describing this error.
    pub fn message(&self) -> (m: String)
        ensures
            m@ == "missing username or password"@,
    {
        "missing username or password".to_owned()
    }
}

/// Whether the decoded key `k` is `username`.
fn is_username_key(k: &[u8]) -> (r: bool)
    ensures
        r == (k@ == username_key()),
{
    if k.len() != 8 {
        return false;
    }
    let r = k[0] == 117 && k[1] == 115 && k[2] == 101 && k[3] == 114 && k[4] == 110 && k[5] == 97
        && k[6] == 109 && k[7] == 101;
    proof {
        if r {
            assert(k@ =~= username_key());
        }
    }
    r
}

/// Whether the decoded key `k` is `email`.
fn is_email_key(k: &[u8]) -> (r: bool)
    ensures
        r == (k@ == email_key()),
{
    if k.len() != 5 {
        return false;
    }
    let r = k[0] == 101 && k[1] == 109 && k[2] == 97 && k[3] == 105 && k[4] == 108;
    proof {
        if r {
            assert(k@ =~= email_key());
        }
    }
    r
}

/// Whether the decoded key `k` is `password`.
fn is_password_key(k: &[u8]) -> (r: bool)
    ensures
        r == (k@ == password_key()),
{
    if k.len() != 8 {
        return false;
    }
    let r = k[0] == 112 && k[1] == 97 && k[2] == 115 && k[3] == 115 && k[4] == 119 && k[5] == 111
        && k[6] == 114 && k[7] == 100;
    proof {
        if r {
            assert(k@ =~= password_key());
        }
    }
    r
}

/// Whether the decoded key `k` is `remember`.
fn is_remember_key(k: &[u8]) -> (r: bool)
    ensures
        r == (k@ == remember_key()),
{
    if k.len() != 8 {
        return false;
    }
    let r = k[0] == 114 && k[1] == 101 && k[2] == 109 && k[3] == 101 && k[4] == 109 && k[5] == 98
        && k[6] == 101 && k[7] == 114;
    proof {
        if r {
            assert(k@ =~= remember_key());
        }
    }
    r
}

/// Whether the decoded value `v` is `on`.
fn is_on_value(v: &[u8]) -> (r: bool)
    ensures
        r == (v@ == on_value()),
{
    if v.len() != 2 {
        return false;
    }
    let r = v[0] == 111 && v[1] == 110;
    proof {
        if r {
            assert(v@ =~= on_value());
        }
    }
    r
}

impl Credentials {
    /// Extracts the credentials from the items of a form body.  Returns an
    /// error exactly where the items leave the user name or the password
    /// missing or empty.
    pub fn from_items(items: &Vec<FormItem>) -> (r: Result<Credentials, CredentialsError>)
        ensures
            ({
                let c = credentials_of(items_view(items@));
                match r {
                    Ok(cr) => c.username.len() > 0 && c.password.len() > 0 && cr.username@
                        == c.username && cr.password@ == c.password && cr.remember == c.remember,
                    Err(_) => c.username.len() == 0 || c.password.len() == 0,
                }
            }),
    {
        let ghost all = items_view(items@);
        let mut username: Vec<u8> = Vec::new();
        let mut password: Vec<u8> = Vec::new();
        let mut remember: bool = false;
        let mut i: usize = 0;
        proof {
            assert(all.skip(0) =~= all);
        }
        while i < items.len()
            invariant
                i <= items.len(),
                all == items_view(items@),
                credentials_of(all) == creds_fold(
                    all.skip(i as int),
                    CredentialsView { username: username@, password: password@, remember },
                ),
            decreases items.len() - i,
        {
            proof {
                assert(all.skip(i as int)[0] == all[i as int]);
                assert(all.skip(i as int).skip(1) =~= all.skip(i as int + 1));
            }
            let (k, v) = items[i].key_value_decoded();
            if is_username_key(k.as_slice()) || is_email_key(k.as_slice()) {
                username = v;
            } else if is_password_key(k.as_slice()) {
                password = v;
            } else if is_remember_key(k.as_slice()) {
                remember = is_on_value(v.as_slice());
            }
            i = i + 1;
        }
        proof {
            assert(all.skip(i as int) =~= Seq::<(Seq<u8>, Seq<u8>)>::empty());
        }
        if username.len() > 0 && password.len() > 0 {
            Ok(Credentials { username, password, remember })
        } else {
            Err(CredentialsError::MissingField)
        }
    }
}

} // verus!
