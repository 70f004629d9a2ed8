//! What holds of PEM files.

use crate::pem::{
    load_certs, load_secret_key, search_key, KeyKind, KeySearch, LoadCertsError, LoadKeyError,
    PemKind, PrivateKey,
};
use vstd::prelude::*;

verus! {

/// The byte strings of a list are those that it holds, each in its place.
pub proof fn contents_are_those_of_the_list(list: Seq<Vec<u8>>)
    ensures
        crate::pem::contents(list).len() == list.len(),
        forall|i: int|
            0 <= i < list.len() ==> #[trigger] crate::pem::contents(list)[i] == list[i]@,
{
}

/// The sections of a file are its next section, and then those of what is left behind
/// it; there are none where there is no next section. A file can be read to its end
/// exactly where what is left behind its next section can, or nothing is left to read.
pub proof fn sections_follow_one_another(input: Seq<u8>)
    ensures
        crate::pem::next_section(input) matches Ok(Some((kind, der, rest))) ==> {
            &&& crate::pem::sections(input).len() > 0
            &&& crate::pem::sections(input)[0] == (kind, der)
            &&& rest.len() < input.len() ==> crate::pem::sections(input).skip(1)
                == crate::pem::sections(rest)
            &&& rest.len() < input.len() ==> (crate::pem::well_formed(input)
                <==> crate::pem::well_formed(rest))
        },
        crate::pem::next_section(input) !is Ok ==> crate::pem::sections(input).len() == 0
            && !crate::pem::well_formed(input),
        crate::pem::next_section(input) == Ok::<Option<(PemKind, Seq<u8>, Seq<u8>)>, ()>(None)
            ==> crate::pem::sections(input).len() == 0 && crate::pem::well_formed(input),
{
    if let Ok(Some((kind, der, rest))) = crate::pem::next_section(input) {
        if rest.len() < input.len() {
            assert(crate::pem::sections(input).skip(1) =~= crate::pem::sections(rest));
        }
    }
}

/// Certificates are had from a file exactly where it can be read to its end. They are
/// its certificate sections, all of them, in order, and nothing else.
pub proof fn certificates_of_a_file(pem: &[u8], result: Result<Vec<Vec<u8>>, LoadCertsError>)
    requires
        call_ensures(load_certs, (pem,), result),
    ensures
        result is Ok <==> crate::pem::well_formed(pem@),
        result matches Ok(found) ==> {
            let sections = crate::pem::sections(pem@).filter(
                |section: (PemKind, Seq<u8>)| section.0 == PemKind::Certificate,
            );
            &&& found@.len() == sections.len()
            &&& forall|i: int| 0 <= i < found@.len() ==> #[trigger] found@[i]@ == sections[i].1
        },
{
    crate::pem::certificates_are_the_certificate_sections(pem@);
    if let Ok(found) = result {
        let by = |section: (PemKind, Seq<u8>)| section.0 == PemKind::Certificate;
        assert(by =~= crate::pem::is_certificate());
        let sections = crate::pem::sections(pem@).filter(by);
        let list = sections.map_values(|section: (PemKind, Seq<u8>)| section.1);
        assert(crate::pem::contents(found@) == list);
        assert(found@.len() == list.len());
        assert forall|i: int| 0 <= i < found@.len() implies #[trigger] found@[i]@
            == sections[i].1 by {
            assert(crate::pem::contents(found@)[i] == list[i]);
        }
    }
}

/// How the search for a key goes on: a section that holds a plaintext private key ends
/// it with that key, in its form and with all its contents; any other section is
/// passed over, and the search goes on with what is left behind it; the end of the
/// file and a fault end it, each with its own error.
pub proof fn search_ends_at_a_key<'a>(
    section: Result<Option<(PemKind, Vec<u8>, &'a [u8])>, std::io::Error>,
    search: KeySearch<'a>,
)
    requires
        call_ensures(search_key, (section,), search),
    ensures
        search matches KeySearch::Found(key) ==> {
            &&& section matches Ok(Some(read)) && read.1 == key.der && read.0 == match key.kind {
                KeyKind::Pkcs1 => PemKind::Pkcs1Key,
                KeyKind::Pkcs8 => PemKind::Pkcs8Key,
                KeyKind::Sec1 => PemKind::Sec1Key,
            }
        },
        search matches KeySearch::GoOn(rest) ==> {
            &&& section matches Ok(Some(read)) && read.2 == rest && (read.0 == PemKind::Certificate
                || read.0 == PemKind::Other)
        },
        search matches KeySearch::Failed(LoadKeyError::NoKeys) ==> section matches Ok(None),
        search matches KeySearch::Failed(LoadKeyError::Malformed(error)) ==> (
        section matches Err(fault) && fault == error),
{
}

/// The key of a file is the first of its sections that holds a plaintext private key,
/// in its form and with its contents, whatever follows it.
pub proof fn key_of_a_file(pem: &[u8], key: PrivateKey)
    requires
        call_ensures(load_secret_key, (pem,), Ok::<PrivateKey, LoadKeyError>(key)),
    ensures
        exists|i: int|
            {
                &&& 0 <= i < crate::pem::sections(pem@).len()
                &&& #[trigger] crate::pem::sections(pem@)[i] == (
                    match key.kind {
                        KeyKind::Pkcs1 => PemKind::Pkcs1Key,
                        KeyKind::Pkcs8 => PemKind::Pkcs8Key,
                        KeyKind::Sec1 => PemKind::Sec1Key,
                    },
                    key.der@,
                )
                &&& forall|j: int|
                    0 <= j < i ==> (#[trigger] crate::pem::sections(pem@)[j]).0
                        == PemKind::Certificate || crate::pem::sections(pem@)[j].0 == PemKind::Other
            },
{
    crate::pem::key_is_the_first_key_section(pem@);
    let all = crate::pem::sections(pem@);
    let i = choose|i: int| #[trigger] crate::pem::is_first_key(all, i, key.kind, key.der@);
    assert(crate::pem::is_first_key(all, i, key.kind, key.der@));
    assert forall|j: int| 0 <= j < i implies (#[trigger] all[j]).0 == PemKind::Certificate
        || all[j].0 == PemKind::Other by {
        assert(!crate::pem::is_key(all.take(i)[j]));
    }
    let kind = match key.kind {
        KeyKind::Pkcs1 => PemKind::Pkcs1Key,
        KeyKind::Pkcs8 => PemKind::Pkcs8Key,
        KeyKind::Sec1 => PemKind::Sec1Key,
    };
    assert(all[i] == (kind, key.der@));
}

/// No key is had from a file exactly where no section before its end, or before its
/// fault, holds one; the error tells whether there is a fault.
pub proof fn file_without_a_key(pem: &[u8], result: Result<PrivateKey, LoadKeyError>)
    requires
        call_ensures(load_secret_key, (pem,), result),
    ensures
        result is Err <==> forall|j: int|
            0 <= j < crate::pem::sections(pem@).len() ==> (#[trigger] crate::pem::sections(
                pem@,
            )[j]).0 == PemKind::Certificate || crate::pem::sections(pem@)[j].0 == PemKind::Other,
        result matches Err(error) ==> (error is NoKeys <==> crate::pem::well_formed(pem@)),
{
    crate::pem::key_is_the_first_key_section(pem@);
    let all = crate::pem::sections(pem@);
    match result {
        Ok(key) => {
            key_of_a_file(pem, key);
        },
        Err(_) => {
            assert forall|j: int| 0 <= j < all.len() implies (#[trigger] all[j]).0
                == PemKind::Certificate || all[j].0 == PemKind::Other by {
                assert(!crate::pem::is_key(all[j]));
            }
        },
    }
}

/// The search for a key passes over sections that hold none, and over nothing else: it
/// ends before a section that holds a key, or where there is no next section.
pub proof fn search_passes_over_other_sections(input: Seq<u8>) -> (passed: nat)
    ensures
        passed <= crate::pem::sections(input).len(),
        crate::pem::sections(input).skip(passed as int) == crate::pem::sections(
            crate::pem::search_end(input),
        ),
        forall|j: int|
            0 <= j < passed ==> (#[trigger] crate::pem::sections(input)[j]).0
                == PemKind::Certificate || crate::pem::sections(input)[j].0 == PemKind::Other,
        crate::pem::next_section(crate::pem::search_end(input)) matches Ok(Some((kind, _, rest)))
            ==> kind == PemKind::Pkcs1Key || kind == PemKind::Pkcs8Key || kind == PemKind::Sec1Key
            || rest.len() >= crate::pem::search_end(input).len(),
    decreases input.len(),
{
    let all = crate::pem::sections(input);
    match crate::pem::next_section(input) {
        Ok(Some((kind, der, rest))) if kind.key_kind() is None && rest.len() < input.len() => {
            let behind = search_passes_over_other_sections(rest);
            let tail = crate::pem::sections(rest);
            assert(all.skip((behind + 1) as int) =~= tail.skip(behind as int));
            assert forall|j: int| 0 <= j < behind + 1 implies (#[trigger] all[j]).0
                == PemKind::Certificate || all[j].0 == PemKind::Other by {
                if j > 0 {
                    assert(all[j] == tail[j - 1]);
                }
            }
            behind + 1
        },
        _ => {
            assert(all.skip(0) =~= all);
            0
        },
    }
}

/// The error for a malformed file is that of a read that does fail: of the whole file
/// for certificates, and for a key of what is left where the search for it ends.
pub proof fn faults_are_those_of_the_file(
    pem: &[u8],
    certs: Result<Vec<Vec<u8>>, LoadCertsError>,
    key: Result<PrivateKey, LoadKeyError>,
)
    requires
        call_ensures(load_certs, (pem,), certs),
        call_ensures(load_secret_key, (pem,), key),
    ensures
        certs matches Err(LoadCertsError::Malformed(error)) ==> crate::pem::certs_fail_with(
            pem@,
            error,
        ),
        key matches Err(LoadKeyError::Malformed(error)) ==> crate::pem::read_fails_with(
            crate::pem::search_end(pem@),
            error,
        ),
{
}

} // verus!
