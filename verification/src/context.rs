//! A context chain: an immutable association list keyed by string, used to
//! pass request-scoped metadata (a trace identifier, a locale, a language
//! tag) down a call chain. Adding a value never touches the parent chain;
//! a lookup walks outward from the newest entry, so an inner entry shadows
//! an outer one under the same key.

use vstd::prelude::*;

verus! {

/// The chain itself: either a link holding one key/value pair over its
/// parent, or the empty chain.
pub enum Context<V> {
    Wrap(Box<Context<V>>, String, V),
    Null,
}

impl<V> Context<V> {
    /// What the chain associates with `key`: the value of the innermost
    /// link whose key matches, or nothing.
    pub open spec fn lookup(self, key: Seq<char>) -> Option<V>
        decreases self,
    {
        match self {
            Context::Wrap(parent, k, v) => if k@ == key {
                Some(v)
            } else {
                parent.lookup(key)
            },
            Context::Null => None,
        }
    }
}

/// The empty chain: it associates nothing with any key.
pub fn new<V>() -> (c: Context<V>)
    ensures
        c == Context::<V>::Null,
        forall|k: Seq<char>| c.lookup(k) is None,
{
    Context::Null
}

/// Extends the chain with one key/value pair. The new chain answers `key`
/// with `val` and answers every other key as the parent did.
pub fn with_value<V>(parent: Context<V>, key: String, val: V) -> (c: Context<V>)
    ensures
        c.lookup(key@) == Some(val),
        forall|k: Seq<char>| k != key@ ==> c.lookup(k) == parent.lookup(k),
{
    Context::Wrap(Box::new(parent), key, val)
}

/// Looks `key` up in the chain, returning a reference to the innermost
/// matching value, or `None` when no link carries the key.
pub fn get_value<'a, V>(cc: &'a Context<V>, key: String) -> (r: Option<&'a V>)
    ensures
        match r {
            Some(v) => cc.lookup(key@) == Some(*v),
            None => cc.lookup(key@) is None,
        },
{
    let mut cur: &Context<V> = cc;
    loop
        invariant
            cur.lookup(key@) == cc.lookup(key@),
        decreases *cur,
    {
        match cur {
            Context::Wrap(parent, match_key, val) => {
                if key.eq(match_key) {
                    return Some(val);
                }
                cur = &**parent;
            },
            Context::Null => {
                return None;
            },
        }
    }
}

/// Relies on `uuid::Uuid::new_v4` and its `Display` rendering: a freshly
/// drawn random version-4 UUID, written in the hyphenated form, which is
/// always 36 characters long. The draw is random, so nothing more is
/// promised of the contents.
#[verifier::external_body]
fn fresh_trace_id() -> (r: String)
    ensures
        r@.len() == 36,
{
    uuid::Uuid::new_v4().to_string()
}

/// Ensures the chain carries request metadata: a chain that already has a
/// non-empty trace identifier comes back unchanged; any other chain is
/// extended with a fresh trace identifier, the locale `"zh"` and the
/// language tag `"ZH-CN"`, leaving every other key as it was.
pub fn wrap(parent: Context<String>) -> (c: Context<String>)
    ensures
        ({
            let t = parent.lookup("trace_id"@);
            if t matches Some(id) && id@.len() > 0 {
                c == parent
            } else {
                &&& c.lookup("trace_id"@) matches Some(id) && id@.len() == 36
                &&& c.lookup("locale"@) matches Some(lo) && lo@ == "zh"@
                &&& c.lookup("lang"@) matches Some(la) && la@ == "ZH-CN"@
                &&& forall|k: Seq<char>|
                    k != "trace_id"@ && k != "locale"@ && k != "lang"@ ==> c.lookup(k)
                        == parent.lookup(k)
            }
        }),
{
    let has_trace = match get_value(&parent, "trace_id".to_owned()) {
        Some(trace_id) => !trace_id.as_str().is_empty(),
        None => false,
    };
    if has_trace {
        return parent;
    }
    let with_trace = with_value(parent, "trace_id".to_owned(), fresh_trace_id());
    let with_locale = with_value(with_trace, "locale".to_owned(), "zh".to_owned());
    let full = with_value(with_locale, "lang".to_owned(), "ZH-CN".to_owned());
    proof {
        reveal_strlit("trace_id");
        reveal_strlit("locale");
        reveal_strlit("lang");
        assert("locale"@.len() == 6);
        assert("lang"@.len() == 4);
        assert("trace_id"@.len() == 8);
        assert("locale"@ != "lang"@);
        assert("trace_id"@ != "lang"@);
        assert("trace_id"@ != "locale"@);
        assert(full.lookup("locale"@) == with_locale.lookup("locale"@));
        assert(full.lookup("trace_id"@) == with_locale.lookup("trace_id"@));
        assert(with_locale.lookup("trace_id"@) == with_trace.lookup("trace_id"@));
    }
    full
}

} // verus!
