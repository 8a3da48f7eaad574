//! Declarations of the outside items the library calls, with the contracts
//! that the rest of the crate relies on.
use std::collections::hash_map::DefaultHasher;
use std::hash::Hash;
use unicode_segmentation::UnicodeSegmentation;
use vstd::prelude::*;
use zeroize::Zeroizing;

verus! {

/// The sequence of writes that `<str as Hash>::hash` makes into a hasher.
pub uninterp spec fn str_hash_writes(s: Seq<char>) -> Seq<Seq<u8>>;

/// Feeds `key` into `hasher` with `<str as Hash>::hash`.
///
/// Claimed: the hasher afterwards holds the writes it held before, followed
/// by the writes that hashing a string makes, which depend on the string alone.
#[verifier::external_body]
pub(crate) fn hash_str_into(key: &str, hasher: &mut DefaultHasher)
    ensures
        final(hasher)@ == old(hasher)@ + str_hash_writes(key@),
{
    key.hash(hasher);
}

/// A password held in a `zeroize::Zeroizing<String>`, which wipes the text
/// when it is dropped. Verus does not accept a declaration of the generic
/// `Zeroizing` (its bound names an outside trait), so it is held here in a
/// private field that Verus does not look into.
#[verifier::external_body]
pub struct SecretString {
    inner: Zeroizing<String>,
}

/// The text held by a `SecretString`.
pub uninterp spec fn secret_text(secret: SecretString) -> Seq<char>;

/// `Zeroizing::new`: wraps a string.
///
/// Claimed: the wrapper holds exactly the given text.
#[verifier::external_body]
pub(crate) fn new_secret(text: String) -> (r: SecretString)
    ensures
        secret_text(r) == text@,
{
    SecretString { inner: Zeroizing::new(text) }
}

/// `<Zeroizing<String> as Default>::default`.
///
/// Claimed: the wrapper holds the empty text (the derived default wraps
/// `String::default()`).
#[verifier::external_body]
pub(crate) fn empty_secret() -> (r: SecretString)
    ensures
        secret_text(r) == Seq::<char>::empty(),
{
    SecretString { inner: Zeroizing::default() }
}

/// `<Zeroizing<String> as Clone>::clone`.
///
/// Claimed: the copy holds the same text (the impl clones the inner string).
#[verifier::external_body]
pub(crate) fn clone_secret(secret: &SecretString) -> (r: SecretString)
    ensures
        secret_text(r) == secret_text(*secret),
{
    SecretString { inner: secret.inner.clone() }
}

/// `<Zeroizing<String> as Deref>::deref`, then `String::as_str`.
///
/// Claimed: the slice shows the held text.
#[verifier::external_body]
pub(crate) fn secret_str(secret: &SecretString) -> (r: &str)
    ensures
        r@ == secret_text(*secret),
{
    secret.inner.as_str()
}

/// `matrix_sdk::Client`, a logged-in connection to a homeserver. The library
/// only carries it from the login page to the chat page.
#[verifier::external_type_specification]
#[verifier::external_body]
pub struct ExClient(matrix_sdk::Client);

/// The extended grapheme clusters of a text, as `UnicodeSegmentation::graphemes`
/// with `is_extended` set splits it.
pub uninterp spec fn extended_graphemes(s: Seq<char>) -> Seq<Seq<char>>;

/// `UnicodeSegmentation::graphemes(s, true)`, collected.
///
/// Claimed: the clusters are those the crate computes for `s`; each is
/// non-empty; read in order they spell `s` again (the iterator hands out
/// consecutive slices of `s` from its start to its end).
#[verifier::external_body]
pub fn graphemes(s: &str) -> (r: Vec<&str>)
    ensures
        r@.map_values(|g: &str| g@) == extended_graphemes(s@),
        r@.map_values(|g: &str| g@).flatten() == s@,
        forall|i: int| 0 <= i < r@.len() ==> #[trigger] r@[i]@.len() > 0,
{
    s.graphemes(true).collect()
}

/// Whether a character is alphanumeric in the sense of `char::is_alphanumeric`.
pub uninterp spec fn char_is_alphanumeric(c: char) -> bool;

/// Whether a character is an ASCII letter or an ASCII digit.
pub open spec fn is_ascii_alphanumeric(c: char) -> bool {
    ('0' <= c && c <= '9') || ('a' <= c && c <= 'z') || ('A' <= c && c <= 'Z')
}

/// `char::is_alphanumeric`.
///
/// Claimed: the answer depends on the character alone, and is `true` for the
/// ASCII letters and digits (the documentation defines it as
/// `is_alphabetic() || is_numeric()`, and the ASCII letters are alphabetic and
/// the ASCII digits numeric).
#[verifier::external_body]
pub fn is_alphanumeric(c: char) -> (r: bool)
    ensures
        r == char_is_alphanumeric(c),
        is_ascii_alphanumeric(c) ==> r,
{
    c.is_alphanumeric()
}

} // verus!
