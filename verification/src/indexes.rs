//! Index-name composition and the fallback-resolution protocol.
//!
//! Index names are audience-suffixed derivations of a base kind
//! (`menu_item`, `menu_tree`, `role`, `window`, `process`, `form`,
//! `browser`): lower-cased, underscore-separated, with blank components
//! skipped, composed in the fixed order
//! `default -> language -> client -> role -> user`, and an optional
//! dictionary code appended as the trailing segment.
//!
//! Probing the store for the first existing candidate is input/output and is
//! driven by an adapter; [`resolve_index`] takes the probe outcomes and picks
//! the first hit, or fails with every attempted name.

use vstd::prelude::*;
use crate::errors::ServiceError;
use crate::text::is_blank_seq;
use crate::text::is_missing;
use crate::text::lower_seq;
use crate::text::push_char;
use crate::text::spec_missing;
use crate::text::to_lowercase;
use crate::text::view_opt;

verus! {

/// Audience parameters that scope a query to a precomputed index.
#[derive(Debug, Clone)]
pub struct Metadata {
    pub index_value: Option<String>,
    pub language: Option<String>,
    pub client_id: Option<String>,
    pub role_id: Option<String>,
    pub user_id: Option<String>,
    pub dictionary_code: Option<String>,
}

/// One composition step: append `_` and the segment, unless the segment is
/// absent or blank, in which case the base is kept unchanged.
pub open spec fn seg_append(base: Seq<char>, seg: Option<Seq<char>>) -> Seq<char> {
    if spec_missing(seg) {
        base
    } else {
        base + seq!['_'] + seg->Some_0
    }
}

/// The fully composed, lower-cased index name for a kind and an audience,
/// with the dictionary code as the trailing segment.
pub open spec fn spec_index_name(
    kind: Seq<char>,
    language: Option<Seq<char>>,
    client: Option<Seq<char>>,
    role: Option<Seq<char>>,
    user: Option<Seq<char>>,
    dictionary_code: Option<Seq<char>>,
) -> Seq<char> {
    lower_seq(
        seg_append(seg_append(seg_append(seg_append(seg_append(kind, language), client), role), user), dictionary_code),
    )
}

/// A character sequence already in lower case.
pub open spec fn all_lower(s: Seq<char>) -> bool {
    forall|i: int| 0 <= i < s.len() ==> s[i] == crate::text::lower_char(#[trigger] s[i])
}

/// Lower-casing is idempotent, so every composed name is lower-cased.
pub proof fn lemma_lower_idempotent(s: Seq<char>)
    ensures
        all_lower(lower_seq(s)),
        lower_seq(lower_seq(s)) == lower_seq(s),
{
    assert forall|i: int| 0 <= i < lower_seq(s).len() implies lower_seq(s)[i]
        == crate::text::lower_char(#[trigger] lower_seq(s)[i]) by {
        assert(lower_seq(s)[i] == crate::text::lower_char(s[i]));
    }
    assert(lower_seq(lower_seq(s)) =~= lower_seq(s));
}

/// Blank components are skipped; present components join with one underscore.
pub proof fn lemma_seg_append(base: Seq<char>, seg: Option<Seq<char>>)
    ensures
        spec_missing(seg) ==> seg_append(base, seg) == base,
        !spec_missing(seg) ==> seg_append(base, seg) == base + seq!['_'] + seg->Some_0,
{
}

fn append_segment(base: &mut String, seg: Option<&String>)
    ensures
        final(base)@ == seg_append(old(base)@, view_opt_ref(seg)),
{
    match seg {
        Option::None => {
        },
        Option::Some(s) => {
            if !crate::text::is_blank(s) {
                push_char(base, '_');
                base.append(s.as_str());
                assert(final(base)@ =~= old(base)@ + seq!['_'] + s@);
            }
        },
    }
}

/// The view of an optional borrowed string.
pub open spec fn view_opt_ref(o: Option<&String>) -> Option<Seq<char>> {
    match o {
        Option::None => Option::None,
        Option::Some(s) => Option::Some(s@),
    }
}

/// The base index for a kind: the kind itself, lower-cased.
pub fn default_index(index_name: String) -> (r: String)
    ensures
        r@ == lower_seq(index_name@),
{
    to_lowercase(&index_name)
}

/// The language-scoped index: `<kind>_<language>`, lower-cased; a blank
/// language leaves the base name.
pub fn language_index(index_name: String, language: Option<&String>) -> (r: String)
    ensures
        r@ == lower_seq(seg_append(index_name@, view_opt_ref(language))),
{
    let mut name = index_name;
    append_segment(&mut name, language);
    to_lowercase(&name)
}

/// The client-scoped index: `<kind>_<client>`, lower-cased; a blank client
/// leaves the base name.
pub fn client_index_only(index_name: String, client_id: Option<&String>) -> (r: String)
    ensures
        r@ == lower_seq(seg_append(index_name@, view_opt_ref(client_id))),
{
    let mut name = index_name;
    append_segment(&mut name, client_id);
    to_lowercase(&name)
}

/// The fully composed audience index name.
pub fn compose_index_name(
    kind: String,
    language: Option<&String>,
    client_id: Option<&String>,
    role_id: Option<&String>,
    user_id: Option<&String>,
    dictionary_code: Option<&String>,
) -> (r: String)
    ensures
        r@ == spec_index_name(
            kind@,
            view_opt_ref(language),
            view_opt_ref(client_id),
            view_opt_ref(role_id),
            view_opt_ref(user_id),
            view_opt_ref(dictionary_code),
        ),
{
    let mut name = kind;
    append_segment(&mut name, language);
    append_segment(&mut name, client_id);
    append_segment(&mut name, role_id);
    append_segment(&mut name, user_id);
    append_segment(&mut name, dictionary_code);
    to_lowercase(&name)
}

/// The language-scoped lookup name used for menu-item and menu-tree reads:
/// `<kind>_<language>[_<dictionary_code>]`.  The language is mandatory.
pub fn get_index_name(
    index_name: String,
    language: Option<&String>,
    dictionary_code: Option<&String>,
) -> (r: Result<String, ServiceError>)
    ensures
        spec_missing(view_opt_ref(language)) <==> r is Err,
        r matches Err(e) ==> e is Validation,
        r matches Ok(name) ==> name@ == lower_seq(
            seg_append(seg_append(index_name@, view_opt_ref(language)), view_opt_ref(dictionary_code)),
        ),
{
    match language {
        Option::None => Result::Err(ServiceError::Validation("Language is Mandatory".to_owned())),
        Option::Some(l) => {
            if crate::text::is_blank(l) {
                return Result::Err(ServiceError::Validation("Language is Mandatory".to_owned()));
            }
            let mut name = index_name;
            append_segment(&mut name, language);
            append_segment(&mut name, dictionary_code);
            Result::Ok(to_lowercase(&name))
        },
    }
}

/// The fallback chain for per-role dictionary reads: the per-user name, when
/// a user is given, then the per-role name; most specific first.
pub fn dictionary_chain(
    kind: String,
    language: Option<&String>,
    client_id: Option<&String>,
    role_id: Option<&String>,
    user_id: Option<&String>,
    dictionary_code: Option<&String>,
) -> (r: Vec<String>)
    ensures
        ({
            let k = kind@;
            let l = view_opt_ref(language);
            let c = view_opt_ref(client_id);
            let ro = view_opt_ref(role_id);
            let u = view_opt_ref(user_id);
            let d = view_opt_ref(dictionary_code);
            if spec_missing(u) {
                r@.len() == 1 && r@[0]@ == spec_index_name(k, l, c, ro, Option::None, d)
            } else {
                r@.len() == 2 && r@[0]@ == spec_index_name(k, l, c, ro, u, d) && r@[1]@
                    == spec_index_name(k, l, c, ro, Option::None, d)
            }
        }),
{
    let mut out: Vec<String> = Vec::new();
    let skip_user = is_missing_ref(&user_id);
    if !skip_user {
        out.push(
            compose_index_name(
                clone_string(&kind),
                language,
                client_id,
                role_id,
                user_id,
                dictionary_code,
            ),
        );
    }
    out.push(
        compose_index_name(kind, language, client_id, role_id, Option::None, dictionary_code),
    );
    out
}

/// The legacy fallback chain: user, role, client, language, default; most
/// specific first, each with the dictionary code appended.
pub fn legacy_chain(
    kind: String,
    language: Option<&String>,
    client_id: Option<&String>,
    role_id: Option<&String>,
    user_id: Option<&String>,
    dictionary_code: Option<&String>,
) -> (r: Vec<String>)
    ensures
        ({
            let k = kind@;
            let l = view_opt_ref(language);
            let c = view_opt_ref(client_id);
            let ro = view_opt_ref(role_id);
            let u = view_opt_ref(user_id);
            let d = view_opt_ref(dictionary_code);
            r@.len() == 5 && r@[0]@ == spec_index_name(k, l, c, ro, u, d) && r@[1]@
                == spec_index_name(k, l, c, ro, Option::None, d) && r@[2]@ == spec_index_name(
                k,
                l,
                c,
                Option::None,
                Option::None,
                d,
            ) && r@[3]@ == spec_index_name(k, l, Option::None, Option::None, Option::None, d)
                && r@[4]@ == spec_index_name(
                k,
                Option::None,
                Option::None,
                Option::None,
                Option::None,
                d,
            )
        }),
{
    let mut out: Vec<String> = Vec::new();
    out.push(
        compose_index_name(
            clone_string(&kind),
            language,
            client_id,
            role_id,
            user_id,
            dictionary_code,
        ),
    );
    out.push(
        compose_index_name(
            clone_string(&kind),
            language,
            client_id,
            role_id,
            Option::None,
            dictionary_code,
        ),
    );
    out.push(
        compose_index_name(
            clone_string(&kind),
            language,
            client_id,
            Option::None,
            Option::None,
            dictionary_code,
        ),
    );
    out.push(
        compose_index_name(
            clone_string(&kind),
            language,
            Option::None,
            Option::None,
            Option::None,
            dictionary_code,
        ),
    );
    out.push(
        compose_index_name(
            kind,
            Option::None,
            Option::None,
            Option::None,
            Option::None,
            dictionary_code,
        ),
    );
    out
}

fn clone_string(s: &String) -> (r: String)
    ensures
        r@ == s@,
{
    s.clone()
}

fn is_missing_ref(o: &Option<&String>) -> (r: bool)
    ensures
        r == spec_missing(view_opt_ref(*o)),
{
    match o {
        Option::None => true,
        Option::Some(s) => crate::text::is_blank(s),
    }
}

/// Picks the first candidate whose probe succeeded; when every probe missed,
/// fails with the attempted names.
pub fn resolve_index(candidates: Vec<String>, probes: &Vec<bool>) -> (r: Result<
    String,
    ServiceError,
>)
    requires
        candidates@.len() == probes@.len(),
    ensures
        match r {
            Result::Ok(name) => exists|i: int|
                0 <= i < probes@.len() && probes@[i] && name@ == candidates@[i]@ && (forall|j: int|
                    0 <= j < i ==> !probes@[j]),
            Result::Err(e) => (forall|i: int| 0 <= i < probes@.len() ==> !probes@[i]) && (
            e matches ServiceError::IndexNotFound(tried) && tried@.len() == candidates@.len()
                && (forall|i: int|
                0 <= i < tried@.len() ==> #[trigger] tried@[i]@ == candidates@[i]@)),
        },
{
    let mut i: usize = 0;
    let n = candidates.len();
    while i < n
        invariant
            n == candidates@.len(),
            candidates@.len() == probes@.len(),
            0 <= i <= n,
            forall|j: int| 0 <= j < i ==> !probes@[j],
        decreases n - i,
    {
        if probes[i] {
            let ghost w = i as int;
            let name = clone_string(&candidates[i]);
            assert(probes@[w] && name@ == candidates@[w]@);
            return Result::Ok(name);
        }
        i = i + 1;
    }
    Result::Err(ServiceError::IndexNotFound(candidates))
}

} // verus!
