//! Certificates and private keys in PEM files.

use rustls_pemfile::Item;
use vstd::prelude::*;

verus! {

/// An error of `std::io`, which is how `rustls_pemfile` reports malformed PEM.
#[verifier::external_type_specification]
#[verifier::external_body]
pub struct ExIoError(std::io::Error);

/// What a section of a PEM file holds.
#[derive(Clone, Copy, Debug, PartialEq, Eq, Structural)]
pub enum PemKind {
    /// An X.509 certificate.
    Certificate,
    /// An RSA private key in the form of PKCS #1.
    Pkcs1Key,
    /// A private key in the form of PKCS #8.
    Pkcs8Key,
    /// An elliptic-curve private key in the form of SEC1.
    Sec1Key,
    /// A section that holds neither a certificate nor a plaintext private key.
    Other,
}

/// The form of a private key.
#[derive(Clone, Copy, Debug, PartialEq, Eq, Structural)]
pub enum KeyKind {
    Pkcs1,
    Pkcs8,
    Sec1,
}

impl PemKind {
    /// The form of the private key that a section of this kind holds, if it
    /// holds one.
    pub open spec fn key_kind(self) -> Option<KeyKind> {
        match self {
            PemKind::Pkcs1Key => Some(KeyKind::Pkcs1),
            PemKind::Pkcs8Key => Some(KeyKind::Pkcs8),
            PemKind::Sec1Key => Some(KeyKind::Sec1),
            PemKind::Certificate | PemKind::Other => None,
        }
    }
}

/// A private key: its form and its DER encoding.
#[derive(Debug, PartialEq, Eq)]
pub struct PrivateKey {
    pub kind: KeyKind,
    pub der: Vec<u8>,
}

/// Why a private key could not be had from a PEM file.
#[derive(Debug)]
pub enum LoadKeyError {
    /// The file is malformed before any private key.
    Malformed(std::io::Error),
    /// The file holds no plaintext private key.
    NoKeys,
}

/// Why certificates could not be had from a PEM file.
#[derive(Debug)]
pub enum LoadCertsError {
    /// The file is malformed.
    Malformed(std::io::Error),
}

/// What `rustls_pemfile::read_one` finds at the start of `input`: the kind and
/// the decoded contents of the next recognised section, together with the bytes
/// that it leaves unread behind the section; `Ok(None)` where no section is
/// left, and `Err` where the input is malformed. The contents of a section of
/// kind `Other` are left out.
pub uninterp spec fn next_section(input: Seq<u8>) -> Result<
    Option<(PemKind, Seq<u8>, Seq<u8>)>,
    (),
>;

/// The contents of the certificates in `input`, in the order in which they
/// stand there, or `Err` where the input is malformed.
pub open spec fn certificates(input: Seq<u8>) -> Result<Seq<Seq<u8>>, ()>
    decreases input.len(),
{
    match next_section(input) {
        Err(_) => Err(()),
        Ok(None) => Ok(Seq::empty()),
        Ok(Some((kind, der, rest))) => if rest.len() >= input.len() {
            Err(())
        } else {
            match certificates(rest) {
                Err(_) => Err(()),
                Ok(certs) => Ok(
                    if kind == PemKind::Certificate {
                        seq![der] + certs
                    } else {
                        certs
                    },
                ),
            }
        },
    }
}

/// The first private key in `input`, `Ok(None)` where there is none, or `Err`
/// where the input is malformed before any private key.
pub open spec fn first_key(input: Seq<u8>) -> Result<Option<(KeyKind, Seq<u8>)>, ()>
    decreases input.len(),
{
    match next_section(input) {
        Err(_) => Err(()),
        Ok(None) => Ok(None),
        Ok(Some((kind, der, rest))) => match kind.key_kind() {
            Some(key_kind) => Ok(Some((key_kind, der))),
            None => if rest.len() >= input.len() {
                Err(())
            } else {
                first_key(rest)
            },
        },
    }
}

/// What is left of `input` where the search for a private key ends: the bytes
/// behind the sections that are passed over.
pub open spec fn search_end(input: Seq<u8>) -> Seq<u8>
    decreases input.len(),
{
    match next_section(input) {
        Ok(Some((kind, _, rest))) if kind.key_kind() is None && rest.len() < input.len() =>
            search_end(rest),
        _ => input,
    }
}

/// The sections of `input`, each with its kind and its contents, up to the end
/// of the input or to where it is malformed.
pub open spec fn sections(input: Seq<u8>) -> Seq<(PemKind, Seq<u8>)>
    decreases input.len(),
{
    match next_section(input) {
        Ok(Some((kind, der, rest))) => if rest.len() >= input.len() {
            seq![(kind, der)]
        } else {
            seq![(kind, der)] + sections(rest)
        },
        _ => Seq::empty(),
    }
}

/// Whether `input` can be read to its end.
pub open spec fn well_formed(input: Seq<u8>) -> bool
    decreases input.len(),
{
    match next_section(input) {
        Err(_) => false,
        Ok(None) => true,
        Ok(Some((_, _, rest))) => rest.len() < input.len() && well_formed(rest),
    }
}

/// Whether a section holds a certificate.
pub open spec fn is_certificate() -> spec_fn((PemKind, Seq<u8>)) -> bool {
    |section: (PemKind, Seq<u8>)| section.0 == PemKind::Certificate
}

/// Whether a section holds a private key.
pub open spec fn is_key(section: (PemKind, Seq<u8>)) -> bool {
    section.0.key_kind() is Some
}

/// Whether no section of `all` holds a private key.
pub open spec fn no_keys(all: Seq<(PemKind, Seq<u8>)>) -> bool {
    forall|j: int| 0 <= j < all.len() ==> !is_key(#[trigger] all[j])
}

/// Whether the private key of form `kind` with the contents `der` stands in
/// section `i` of `all`, and none stands before it.
pub open spec fn is_first_key(
    all: Seq<(PemKind, Seq<u8>)>,
    i: int,
    kind: KeyKind,
    der: Seq<u8>,
) -> bool {
    &&& 0 <= i < all.len()
    &&& all[i].0.key_kind() == Some(kind)
    &&& all[i].1 == der
    &&& no_keys(all.take(i))
}

proof fn filter_of_one(section: (PemKind, Seq<u8>))
    ensures
        seq![section].filter(is_certificate()) == if section.0 == PemKind::Certificate {
            seq![section]
        } else {
            Seq::empty()
        },
{
    reveal(Seq::filter);
    reveal_with_fuel(Seq::filter, 2);
    assert(seq![section].drop_last() =~= Seq::<(PemKind, Seq<u8>)>::empty());
}

/// Certificates are had from a file exactly where it can be read to its end, and
/// they are its certificate sections, in order, and nothing else.
pub proof fn certificates_are_the_certificate_sections(input: Seq<u8>)
    ensures
        certificates(input) is Ok <==> well_formed(input),
        certificates(input) matches Ok(list) ==> list == sections(input).filter(
            is_certificate(),
        ).map_values(|section: (PemKind, Seq<u8>)| section.1),
    decreases input.len(),
{
    let contents_of = |section: (PemKind, Seq<u8>)| section.1;
    match next_section(input) {
        Ok(Some((kind, der, rest))) => if rest.len() < input.len() {
            let head = seq![(kind, der)];
            let tail = sections(rest);
            certificates_are_the_certificate_sections(rest);
            Seq::filter_distributes_over_add(head, tail, is_certificate());
            filter_of_one((kind, der));
            if let Ok(list) = certificates(input) {
                assert(list =~= head.filter(is_certificate()).map_values(contents_of)
                    + tail.filter(is_certificate()).map_values(contents_of));
                assert(list =~= sections(input).filter(is_certificate()).map_values(contents_of));
            }
        },
        _ => {
            assert(sections(input).filter(is_certificate()).len() == 0) by {
                reveal(Seq::filter);
            }
        },
    }
}

/// The private key that is had from a file is its first private key section.
/// None is had exactly where the file can be read to its end and no section
/// holds one, and the file counts as malformed exactly where it cannot be read
/// to its end and no private key stands before the fault.
pub proof fn key_is_the_first_key_section(input: Seq<u8>)
    ensures
        match first_key(input) {
            Ok(Some((kind, der))) => exists|i: int|
                #[trigger] is_first_key(sections(input), i, kind, der),
            Ok(None) => well_formed(input) && no_keys(sections(input)),
            Err(_) => !well_formed(input) && no_keys(sections(input)),
        },
    decreases input.len(),
{
    let all = sections(input);
    if let Ok(Some((kind, der, rest))) = next_section(input) {
        assert(all[0] == (kind, der));
        if kind.key_kind() is Some {
            let found = first_key(input)->Ok_0->0;
            assert(is_first_key(all, 0, found.0, found.1));
        } else if rest.len() < input.len() {
            key_is_the_first_key_section(rest);
            let tail = sections(rest);
            assert(forall|j: int| 0 < j < all.len() ==> #[trigger] all[j] == tail[j - 1]);
            if let Ok(Some((key_kind, key_der))) = first_key(rest) {
                let i = choose|i: int| #[trigger] is_first_key(tail, i, key_kind, key_der);
                assert(all[i + 1] == tail[i]);
                assert forall|j: int| 0 <= j < i + 1 implies !is_key(
                    #[trigger] all.take(i + 1)[j],
                ) by {
                    if j > 0 {
                        assert(tail.take(i)[j - 1] == all[j]);
                    }
                }
                assert(is_first_key(all, i + 1, key_kind, key_der));
            }
        }
    }
}

/// The byte strings that `list` holds.
pub open spec fn contents(list: Seq<Vec<u8>>) -> Seq<Seq<u8>> {
    list.map_values(|der: Vec<u8>| der@)
}

/// Calls `rustls_pemfile::read_one` on `input`. The result is `next_section` of
/// the input; what is left unread is shorter than the input, since a section
/// takes up at least the line that begins it and the line that ends it.
#[verifier::external_body]
fn read_one<'a>(input: &'a [u8]) -> (result: Result<
    Option<(PemKind, Vec<u8>, &'a [u8])>,
    std::io::Error,
>)
    ensures
        match next_section(input@) {
            Err(_) => result is Err,
            Ok(None) => result == Ok::<Option<(PemKind, Vec<u8>, &'a [u8])>, std::io::Error>(None),
            Ok(Some((kind, der, rest))) => result matches Ok(Some(section)) && section.0 == kind
                && section.1@ == der && section.2@ == rest && rest.len() < input@.len(),
        },
{
    let mut rest: &'a [u8] = input;
    Ok(match rustls_pemfile::read_one(&mut rest)? {
        None => None,
        Some(Item::X509Certificate(der)) => Some((PemKind::Certificate, der.to_vec(), rest)),
        Some(Item::Pkcs1Key(der)) => Some((PemKind::Pkcs1Key, der.secret_pkcs1_der().to_vec(), rest)),
        Some(Item::Pkcs8Key(der)) => Some((PemKind::Pkcs8Key, der.secret_pkcs8_der().to_vec(), rest)),
        Some(Item::Sec1Key(der)) => Some((PemKind::Sec1Key, der.secret_sec1_der().to_vec(), rest)),
        Some(_) => Some((PemKind::Other, Vec::new(), rest)),
    })
}

/// Calls `rustls_pemfile::certs` on `input` and collects what it yields, up to
/// the first error. It reads section after section as `read_one` does, and keeps
/// the certificates among them.
#[verifier::external_body]
fn certs(input: &[u8]) -> (result: Result<Vec<Vec<u8>>, std::io::Error>)
    ensures
        match certificates(input@) {
            Err(_) => result is Err,
            Ok(list) => result matches Ok(found) && contents(found@) == list,
        },
{
    let mut rest: &[u8] = input;
    rustls_pemfile::certs(&mut rest).map(|cert| Ok(cert?.to_vec())).collect()
}

/// Whether `error` is what a call of `rustls_pemfile::certs` on `input` can fail
/// with.
pub closed spec fn certs_fail_with(input: Seq<u8>, error: std::io::Error) -> bool {
    exists|bytes: &[u8]|
        bytes@ == input && #[trigger] call_ensures(
            certs,
            (bytes,),
            Err::<Vec<Vec<u8>>, std::io::Error>(error),
        )
}

/// Whether `error` is what a call of `rustls_pemfile::read_one` on `input` can fail
/// with.
pub closed spec fn read_fails_with(input: Seq<u8>, error: std::io::Error) -> bool {
    exists|bytes: &[u8]|
        bytes@ == input && #[trigger] call_ensures(
            read_one,
            (bytes,),
            Err::<Option<(PemKind, Vec<u8>, &[u8])>, std::io::Error>(error),
        )
}

/// An error that certificates fail with came of a call on that very input.
proof fn certs_failed_in_a_call(input: Seq<u8>, error: std::io::Error) -> (bytes: &'static [u8])
    requires
        certs_fail_with(input, error),
    ensures
        bytes@ == input,
        call_ensures(certs, (bytes,), Err::<Vec<Vec<u8>>, std::io::Error>(error)),
{
    choose|bytes: &'static [u8]|
        bytes@ == input && #[trigger] call_ensures(
            certs,
            (bytes,),
            Err::<Vec<Vec<u8>>, std::io::Error>(error),
        )
}

/// An error that a read fails with came of a call on that very input.
proof fn read_failed_in_a_call(input: Seq<u8>, error: std::io::Error) -> (bytes: &'static [u8])
    requires
        read_fails_with(input, error),
    ensures
        bytes@ == input,
        call_ensures(
            read_one,
            (bytes,),
            Err::<Option<(PemKind, Vec<u8>, &[u8])>, std::io::Error>(error),
        ),
{
    choose|bytes: &'static [u8]|
        bytes@ == input && #[trigger] call_ensures(
            read_one,
            (bytes,),
            Err::<Option<(PemKind, Vec<u8>, &[u8])>, std::io::Error>(error),
        )
}

/// Only reads of malformed input fail: an error of `rustls_pemfile::certs` comes of
/// input that cannot be read to its end, and one of `rustls_pemfile::read_one` of
/// input that is malformed before its next section ends.
pub proof fn only_malformed_input_fails(input: Seq<u8>, error: std::io::Error)
    ensures
        certs_fail_with(input, error) ==> !well_formed(input),
        read_fails_with(input, error) ==> next_section(input) is Err,
{
    certificates_are_the_certificate_sections(input);
    if certs_fail_with(input, error) {
        let _ = certs_failed_in_a_call(input, error);
    }
    if read_fails_with(input, error) {
        let _ = read_failed_in_a_call(input, error);
    }
}

/// Reads the certificates of a PEM file. Sections of other kinds are passed
/// over. An error is the one that reading the file gave.
pub fn load_certs(pem: &[u8]) -> (result: Result<Vec<Vec<u8>>, LoadCertsError>)
    ensures
        match certificates(pem@) {
            Err(_) => result is Err,
            Ok(list) => result matches Ok(found) && contents(found@) == list,
        },
        result matches Err(LoadCertsError::Malformed(error)) ==> certs_fail_with(pem@, error),
{
    let read: Result<Vec<Vec<u8>>, std::io::Error> = certs(pem);
    assert(call_ensures(certs, (pem,), read));
    match read {
        Ok(found) => Ok(found),
        Err(error) => Err(LoadCertsError::Malformed(error)),
    }
}

/// How the search for a private key goes on.
#[derive(Debug)]
pub enum KeySearch<'a> {
    /// The key is found.
    Found(PrivateKey),
    /// These bytes are left to be searched.
    GoOn(&'a [u8]),
    /// There is no key to be had.
    Failed(LoadKeyError),
}

/// Says how the search for a private key goes on after a section was read: its
/// kind, its contents and the bytes behind it, or `None` at the end of the input.
pub fn search_key<'a>(
    section: Result<Option<(PemKind, Vec<u8>, &'a [u8])>, std::io::Error>,
) -> (search: KeySearch<'a>)
    ensures
        match section {
            Err(error) => search == KeySearch::<'a>::Failed(LoadKeyError::Malformed(error)),
            Ok(None) => search == KeySearch::<'a>::Failed(LoadKeyError::NoKeys),
            Ok(Some((kind, der, rest))) => search == match kind.key_kind() {
                Some(kind) => KeySearch::<'a>::Found(PrivateKey { kind, der }),
                None => KeySearch::<'a>::GoOn(rest),
            },
        },
{
    match section {
        Err(error) => KeySearch::Failed(LoadKeyError::Malformed(error)),
        Ok(None) => KeySearch::Failed(LoadKeyError::NoKeys),
        Ok(Some((kind, der, rest))) => match kind {
            PemKind::Pkcs1Key => KeySearch::Found(PrivateKey { kind: KeyKind::Pkcs1, der }),
            PemKind::Pkcs8Key => KeySearch::Found(PrivateKey { kind: KeyKind::Pkcs8, der }),
            PemKind::Sec1Key => KeySearch::Found(PrivateKey { kind: KeyKind::Sec1, der }),
            PemKind::Certificate | PemKind::Other => KeySearch::GoOn(rest),
        },
    }
}

/// Reads the first private key of a PEM file. Sections of other kinds are passed
/// over, and what follows the key is not looked at. An encrypted key is no
/// private key here. The error for a malformed file is the one that reading it
/// gave, behind the sections that were passed over.
pub fn load_secret_key(pem: &[u8]) -> (result: Result<PrivateKey, LoadKeyError>)
    ensures
        match first_key(pem@) {
            Err(_) => result matches Err(LoadKeyError::Malformed(_)),
            Ok(None) => result matches Err(LoadKeyError::NoKeys),
            Ok(Some((kind, der))) => result matches Ok(key) && key.kind == kind && key.der@ == der,
        },
        result matches Err(LoadKeyError::Malformed(error)) ==> read_fails_with(
            search_end(pem@),
            error,
        ),
{
    let mut rest: &[u8] = pem;
    loop
        invariant
            first_key(rest@) == first_key(pem@),
            search_end(rest@) == search_end(pem@),
        decreases rest@.len(),
    {
        let section: Result<Option<(PemKind, Vec<u8>, &[u8])>, std::io::Error> = read_one(rest);
        assert(call_ensures(read_one, (rest,), section));
        match search_key(section) {
            KeySearch::Found(key) => {
                return Ok(key);
            },
            KeySearch::Failed(error) => {
                return Err(error);
            },
            KeySearch::GoOn(next) => {
                rest = next;
            },
        }
    }
}

} // verus!
