use vstd::prelude::*;
use vstd::string::*;

verus! {

/// What a context holds: each variable name with its value.
pub uninterp spec fn entries_of(c: Context) -> Map<Seq<char>, Seq<char>>;

/// The variables of one script run: parameters, secrets, captured outputs and
/// the logical working directory (under `cwd`).
///
/// Names are case-sensitive; entries are only ever added or overwritten.
#[verifier::external_body]
pub struct Context {
    map: hashbrown::HashMap<String, String>,
}

impl View for Context {
    type V = Map<Seq<char>, Seq<char>>;

    open spec fn view(&self) -> Map<Seq<char>, Seq<char>> {
        entries_of(*self)
    }
}

/// The reserved variable that holds the logical working directory.
pub open spec fn cwd_key() -> Seq<char> {
    seq!['c', 'w', 'd']
}

/// The logical working directory recorded in a context, if any.
pub open spec fn cwd_of(m: Map<Seq<char>, Seq<char>>) -> Option<Seq<char>> {
    if m.contains_key(cwd_key()) {
        Some(m[cwd_key()])
    } else {
        None
    }
}

/// Relies on hashbrown's `HashMap::new`: a map with no entries.
#[verifier::external_body]
fn empty_map() -> (r: Context)
    ensures
        entries_of(r).dom() == Set::<Seq<char>>::empty(),
{
    Context { map: hashbrown::HashMap::new() }
}

/// Relies on hashbrown's `HashMap::get`: the value stored under `key`, if any.
#[verifier::external_body]
fn map_get(c: &Context, key: &str) -> (r: Option<String>)
    ensures
        r.is_some() == entries_of(*c).contains_key(key@),
        r.is_some() ==> r.unwrap()@ == entries_of(*c)[key@],
{
    c.map.get(key).cloned()
}

/// Relies on hashbrown's `HashMap::insert`: the entry for `key` is set to
/// `value` and every other entry is kept.
#[verifier::external_body]
fn map_insert(c: &mut Context, key: String, value: String)
    ensures
        entries_of(*final(c)) == entries_of(*old(c)).insert(key@, value@),
{
    c.map.insert(key, value);
}

/// Relies on hashbrown's `Clone` for `HashMap`: a copy with the same entries.
#[verifier::external_body]
fn map_clone(c: &Context) -> (r: Context)
    ensures
        entries_of(r) == entries_of(*c),
{
    Context { map: c.map.clone() }
}

impl Context {
    /// A context with no variables.
    pub fn new() -> (r: Context)
        ensures
            r@ == Map::<Seq<char>, Seq<char>>::empty(),
    {
        let r = empty_map();
        assert(r@ =~= Map::<Seq<char>, Seq<char>>::empty());
        r
    }

    /// The value of a variable, if it is set.
    pub fn get(&self, key: &str) -> (r: Option<String>)
        ensures
            match r {
                Some(v) => self@.contains_key(key@) && v@ == self@[key@],
                None => !self@.contains_key(key@),
            },
    {
        map_get(self, key)
    }

    /// Sets a variable, overwriting an earlier value.
    pub fn insert(&mut self, key: String, value: String)
        ensures
            final(self)@ == old(self)@.insert(key@, value@),
    {
        map_insert(self, key, value)
    }

    /// An independent copy of the context as it stands now.
    pub fn snapshot(&self) -> (r: Context)
        ensures
            r@ == self@,
    {
        map_clone(self)
    }

    /// The logical working directory, if one has been set.
    pub fn cwd(&self) -> (r: Option<String>)
        ensures
            r.is_some() == cwd_of(self@).is_some(),
            r.is_some() ==> r.unwrap()@ == cwd_of(self@).unwrap(),
    {
        proof {
            reveal_strlit("cwd");
            assert("cwd"@ =~= cwd_key());
        }
        self.get("cwd")
    }
}

/// Whether a placeholder `${k}` for a variable `k` of `m` starts at position
/// `i` of `t` and ends with the `}` at position `j`.
pub open spec fn key_ends_at(t: Seq<char>, i: int, j: int, m: Map<Seq<char>, Seq<char>>) -> bool {
    &&& 0 <= i
    &&& i + 2 <= j < t.len()
    &&& t[i] == '$'
    &&& t[i + 1] == '{'
    &&& t[j] == '}'
    &&& m.contains_key(t.subrange(i + 2, j))
}

/// The last position, at most `j`, where a placeholder starting at `i` ends.
pub open spec fn last_end(t: Seq<char>, i: int, j: int, m: Map<Seq<char>, Seq<char>>) -> Option<
    int,
>
    decreases j - i,
{
    if j < i + 2 {
        None
    } else if key_ends_at(t, i, j, m) {
        Some(j)
    } else {
        last_end(t, i, j - 1, m)
    }
}

/// Where the placeholder that starts at position `i` ends, if one does. When
/// several variables match there (`a` and `a}b` in `${a}b}`), the longest
/// name wins.
pub open spec fn placeholder_end(t: Seq<char>, i: int, m: Map<Seq<char>, Seq<char>>) -> Option<
    int,
> {
    last_end(t, i, t.len() - 1, m)
}

/// `t` from position `i` on, read once from left to right: at each position
/// where `${k}` stands for a variable `k` of `m`, the placeholder is replaced
/// by the value of `k`; every other character is kept. Replaced text is never
/// read again.
pub open spec fn substitute_from(t: Seq<char>, i: int, m: Map<Seq<char>, Seq<char>>) -> Seq<
    char,
>
    decreases t.len() - i,
    via substitute_from_decreases
{
    if i < 0 || i >= t.len() {
        Seq::empty()
    } else {
        match placeholder_end(t, i, m) {
            Some(j) => m[t.subrange(i + 2, j)] + substitute_from(t, j + 1, m),
            None => seq![t[i]] + substitute_from(t, i + 1, m),
        }
    }
}

#[via_fn]
proof fn substitute_from_decreases(t: Seq<char>, i: int, m: Map<Seq<char>, Seq<char>>) {
    if 0 <= i < t.len() {
        lemma_last_end(t, i, t.len() - 1, m);
    }
}

/// The template `t` with the variables of `m` filled in.
pub open spec fn substitution(t: Seq<char>, m: Map<Seq<char>, Seq<char>>) -> Seq<char> {
    substitute_from(t, 0, m)
}

proof fn lemma_last_end(t: Seq<char>, i: int, j: int, m: Map<Seq<char>, Seq<char>>)
    ensures
        last_end(t, i, j, m) is Some ==> {
            let e = last_end(t, i, j, m)->Some_0;
            i + 2 <= e <= j && key_ends_at(t, i, e, m)
        },
    decreases j - i,
{
    if j >= i + 2 && !key_ends_at(t, i, j, m) {
        lemma_last_end(t, i, j - 1, m);
    }
}

/// Fills the variables of `context` into `template`: every `${name}` whose
/// name is set is replaced by its value, the longest name first where several
/// fit; unknown placeholders stay as they are.
pub fn substitute(template: &str, context: &Context) -> (r: String)
    ensures
        r@ == substitution(template@, context@),
{
    let n = template.unicode_len();
    let mut out = String::new();
    let mut i: usize = 0;
    while i < n
        invariant
            n == template@.len(),
            i <= n,
            out@ + substitute_from(template@, i as int, context@) == substitution(
                template@,
                context@,
            ),
        decreases n - i,
    {
        let t = Ghost(template@);
        let mut found = false;
        if i + 1 < n && template.get_char(i) == '$' && template.get_char(i + 1) == '{' {
            // Try each closing brace from the far end down: the first that
            // closes a known name closes the longest one.
            let mut j: usize = n;
            while j > i + 2 && !found
                invariant
                    n == template@.len(),
                    t@ == template@,
                    i + 2 <= j <= n,
                    i + 1 < n,
                    t@[i as int] == '$',
                    t@[i + 1] == '{',
                    !found ==> placeholder_end(t@, i as int, context@) == last_end(
                        t@,
                        i as int,
                        j - 1,
                        context@,
                    ),
                    found ==> j < n && placeholder_end(t@, i as int, context@) == Some(j as int)
                        && out@ + substitute_from(t@, j + 1, context@) == substitution(
                        t@,
                        context@,
                    ),
                    !found ==> out@ + substitute_from(t@, i as int, context@) == substitution(
                        t@,
                        context@,
                    ),
                decreases j,
            {
                let k = j - 1;
                if template.get_char(k) == '}' {
                    let name = template.substring_char(i + 2, k);
                    match context.get(name) {
                        Some(value) => {
                            assert(key_ends_at(t@, i as int, k as int, context@));
                            let ghost before = out@;
                            out.append(value.as_str());
                            assert(out@ + substitute_from(t@, k + 1, context@) =~= before + (
                            value@ + substitute_from(t@, k + 1, context@)));
                            found = true;
                        },
                        None => {
                            assert(!key_ends_at(t@, i as int, k as int, context@));
                        },
                    }
                }
                j = k;
            }
            if found {
                i = j + 1;
            }
        }
        if !found {
            proof {
                lemma_last_end(t@, i as int, n - 1, context@);
            }
            assert(placeholder_end(t@, i as int, context@) is None);
            let c = template.substring_char(i, i + 1);
            assert(c@ =~= seq![t@[i as int]]);
            let ghost before = out@;
            out.append(c);
            assert(out@ + substitute_from(t@, i + 1, context@) =~= before + (seq![t@[i as int]]
                + substitute_from(t@, i + 1, context@)));
            i = i + 1;
        }
    }
    out
}

} // verus!
