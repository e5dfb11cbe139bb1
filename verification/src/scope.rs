//! The environment: a tree of frames held in one arena, each frame binding
//! names to values and to functions, with an optional parent link forming a
//! lookup chain. Lookups check the local frame first and then walk to the
//! root; writes always target the frame they are invoked on.

use vstd::prelude::*;
use vstd::pervasive::VecAdditionalExecFns;
use vstd::string::*;
use crate::types::{Function, FuncView, Variant, VariantView};

verus! {

/// A frame handle: an index into the arena of a `Scope`.
pub type ScopeId = usize;

/// A cleanup action that can be registered on a scope and runs at teardown.
#[derive(Debug, PartialEq, Eq, Clone, Copy, Structural)]
pub enum Destructor {
    CloseFiles,
}

/// The mathematical value of one frame.
pub struct FrameView {
    pub vars: Seq<(Seq<char>, VariantView)>,
    pub funcs: Seq<(Seq<char>, FuncView)>,
    pub parent: Option<int>,
    pub destructors: Seq<Destructor>,
}

struct Frame {
    vars: Vec<(String, Variant)>,
    funcs: Vec<(String, Function)>,
    parent: Option<usize>,
    destructors: Vec<Destructor>,
}

pub open spec fn vars_view(s: Seq<(String, Variant)>) -> Seq<(Seq<char>, VariantView)> {
    s.map_values(|p: (String, Variant)| (p.0@, p.1@))
}

pub open spec fn funcs_view(s: Seq<(String, Function)>) -> Seq<(Seq<char>, FuncView)> {
    s.map_values(|p: (String, Function)| (p.0@, p.1@))
}

impl View for Frame {
    type V = FrameView;

    closed spec fn view(&self) -> FrameView {
        FrameView {
            vars: vars_view(self.vars@),
            funcs: funcs_view(self.funcs@),
            parent: match self.parent {
                Some(p) => Some(p as int),
                None => None,
            },
            destructors: self.destructors@,
        }
    }
}

/// A chained environment. Frames live in one arena; handles index it.
pub struct Scope {
    frames: Vec<Frame>,
}

impl View for Scope {
    type V = Seq<FrameView>;

    closed spec fn view(&self) -> Seq<FrameView> {
        self.frames@.map_values(|f: Frame| f@)
    }
}

/// Lookup in an association list: the first entry with the given key wins.
pub open spec fn assoc_get<V>(s: Seq<(Seq<char>, V)>, name: Seq<char>) -> Option<V>
    decreases s.len(),
{
    if s.len() == 0 {
        None
    } else if s[0].0 == name {
        Some(s[0].1)
    } else {
        assoc_get(s.subrange(1, s.len() as int), name)
    }
}

/// Writing a binding into an association list: the first entry with the key
/// is replaced in place, else the entry is appended.
pub open spec fn assoc_set<V>(s: Seq<(Seq<char>, V)>, name: Seq<char>, v: V) -> Seq<
    (Seq<char>, V),
>
    decreases s.len(),
{
    if s.len() == 0 {
        seq![(name, v)]
    } else if s[0].0 == name {
        seq![(name, v)] + s.drop_first()
    } else {
        seq![s[0]] + assoc_set(s.drop_first(), name, v)
    }
}

proof fn lemma_assoc_set_is_update<V>(s: Seq<(Seq<char>, V)>, i: int, name: Seq<char>, v: V)
    requires
        0 <= i < s.len(),
        s[i].0 == name,
        forall|j: int| 0 <= j < i ==> (#[trigger] s[j]).0 != name,
    ensures
        assoc_set(s, name, v) =~= s.update(i, (name, v)),
    decreases i,
{
    if i == 0 {
        assert(seq![(name, v)] + s.drop_first() =~= s.update(0, (name, v)));
    } else {
        let s1 = s.drop_first();
        assert(forall|j: int| 0 <= j < i - 1 ==> (#[trigger] s1[j]).0 == s[j + 1].0);
        lemma_assoc_set_is_update(s1, i - 1, name, v);
        assert(seq![s[0]] + s1.update(i - 1, (name, v)) =~= s.update(i, (name, v)));
    }
}

proof fn lemma_assoc_set_is_push<V>(s: Seq<(Seq<char>, V)>, name: Seq<char>, v: V)
    requires
        forall|j: int| 0 <= j < s.len() ==> (#[trigger] s[j]).0 != name,
    ensures
        assoc_set(s, name, v) =~= s.push((name, v)),
    decreases s.len(),
{
    if s.len() > 0 {
        let s1 = s.drop_first();
        assert(forall|j: int| 0 <= j < s1.len() ==> (#[trigger] s1[j]).0 == s[j + 1].0);
        lemma_assoc_set_is_push(s1, name, v);
        assert(seq![s[0]] + s1.push((name, v)) =~= s.push((name, v)));
    }
}

/// Well-formedness of the arena: nonempty, and every parent link points to an
/// earlier frame, so chains are finite and reach a root.
pub open spec fn scope_wf(sv: Seq<FrameView>) -> bool {
    &&& sv.len() >= 1
    &&& forall|i: int|
        0 <= i < sv.len() ==> match (#[trigger] sv[i]).parent {
            Some(p) => 0 <= p < i,
            None => true,
        }
}

/// Variable lookup from frame `at`: the local binding if present, else the
/// parent chain's.
pub open spec fn scope_lookup_var(sv: Seq<FrameView>, at: int, name: Seq<char>) -> Option<
    VariantView,
>
    decreases (if at >= 0 { at } else { 0 }),
{
    if !(0 <= at < sv.len()) {
        None
    } else {
        match assoc_get(sv[at].vars, name) {
            Some(v) => Some(v),
            None => match sv[at].parent {
                Some(p) => if 0 <= p < at {
                    scope_lookup_var(sv, p, name)
                } else {
                    None
                },
                None => None,
            },
        }
    }
}

/// Function lookup from frame `at`; the function namespace is disjoint from
/// the variable namespace.
pub open spec fn scope_lookup_fn(sv: Seq<FrameView>, at: int, name: Seq<char>) -> Option<FuncView>
    decreases (if at >= 0 { at } else { 0 }),
{
    if !(0 <= at < sv.len()) {
        None
    } else {
        match assoc_get(sv[at].funcs, name) {
            Some(v) => Some(v),
            None => match sv[at].parent {
                Some(p) => if 0 <= p < at {
                    scope_lookup_fn(sv, p, name)
                } else {
                    None
                },
                None => None,
            },
        }
    }
}

/// Two arenas have the same shape: same frame count and the same parent
/// links. Evaluation preserves shape: natives add bindings, never frames.
pub open spec fn same_shape(a: Seq<FrameView>, b: Seq<FrameView>) -> bool {
    &&& a.len() == b.len()
    &&& forall|i: int| 0 <= i < a.len() ==> (#[trigger] b[i]).parent == a[i].parent
    &&& forall|i: int| 0 <= i < a.len() ==> (#[trigger] b[i]).destructors == a[i].destructors
}

// ---------------------------------------------------------------------------
// Association-list lemmas
// ---------------------------------------------------------------------------

proof fn lemma_assoc_get_first_match<V>(s: Seq<(Seq<char>, V)>, name: Seq<char>, i: int)
    requires
        0 <= i < s.len(),
        s[i].0 == name,
        forall|j: int| 0 <= j < i ==> (#[trigger] s[j]).0 != name,
    ensures
        assoc_get(s, name) == Some(s[i].1),
    decreases i,
{
    if i > 0 {
        let s1 = s.subrange(1, s.len() as int);
        assert(forall|j: int| 0 <= j < i - 1 ==> (#[trigger] s1[j]).0 == s[j + 1].0);
        lemma_assoc_get_first_match(s1, name, i - 1);
    }
}

proof fn lemma_assoc_get_no_match<V>(s: Seq<(Seq<char>, V)>, name: Seq<char>)
    requires
        forall|j: int| 0 <= j < s.len() ==> (#[trigger] s[j]).0 != name,
    ensures
        assoc_get(s, name) is None,
    decreases s.len(),
{
    if s.len() > 0 {
        let s1 = s.subrange(1, s.len() as int);
        assert(forall|j: int| 0 <= j < s1.len() ==> (#[trigger] s1[j]).0 == s[j + 1].0);
        lemma_assoc_get_no_match(s1, name);
    }
}

proof fn lemma_assoc_get_update<V>(s: Seq<(Seq<char>, V)>, i: int, p: (Seq<char>, V), n: Seq<char>)
    requires
        0 <= i < s.len(),
        s[i].0 == p.0,
        forall|j: int| 0 <= j < i ==> (#[trigger] s[j]).0 != p.0,
    ensures
        assoc_get(s.update(i, p), n) == if n == p.0 {
            Some(p.1)
        } else {
            assoc_get(s, n)
        },
    decreases i,
{
    let s2 = s.update(i, p);
    if i == 0 {
        if n != p.0 {
            assert(s2.subrange(1, s2.len() as int) =~= s.subrange(1, s.len() as int));
        }
    } else {
        let s1 = s.subrange(1, s.len() as int);
        assert(forall|j: int| 0 <= j < i - 1 ==> (#[trigger] s1[j]).0 == s[j + 1].0);
        lemma_assoc_get_update(s1, i - 1, p, n);
        assert(s2.subrange(1, s2.len() as int) =~= s1.update(i - 1, p));
    }
}

proof fn lemma_assoc_get_push<V>(s: Seq<(Seq<char>, V)>, p: (Seq<char>, V), n: Seq<char>)
    requires
        forall|j: int| 0 <= j < s.len() ==> (#[trigger] s[j]).0 != p.0,
    ensures
        assoc_get(s.push(p), n) == if n == p.0 {
            Some(p.1)
        } else {
            assoc_get(s, n)
        },
    decreases s.len(),
{
    let s2 = s.push(p);
    if s.len() == 0 {
        assert(s2[0] == p);
        if n != p.0 {
            assert(s2.subrange(1, 1).len() == 0);
            assert(assoc_get(s2.subrange(1, 1), n) is None);
        }
    } else {
        let s1 = s.subrange(1, s.len() as int);
        assert(forall|j: int| 0 <= j < s1.len() ==> (#[trigger] s1[j]).0 == s[j + 1].0);
        lemma_assoc_get_push(s1, p, n);
        assert(s2.subrange(1, s2.len() as int) =~= s1.push(p));
    }
}

proof fn lemma_assoc_get_push_shadowed<V>(s: Seq<(Seq<char>, V)>, p: (Seq<char>, V), n: Seq<char>)
    requires
        assoc_get(s, p.0) is Some,
    ensures
        assoc_get(s.push(p), n) == assoc_get(s, n),
    decreases s.len(),
{
    let s2 = s.push(p);
    if s.len() > 0 {
        let s1 = s.subrange(1, s.len() as int);
        if s[0].0 != p.0 && s[0].0 != n {
            lemma_assoc_get_push_shadowed(s1, p, n);
            assert(s2.subrange(1, s2.len() as int) =~= s1.push(p));
        } else if s[0].0 == p.0 && s[0].0 != n {
            if assoc_get(s1, p.0) is Some {
                lemma_assoc_get_push_shadowed(s1, p, n);
                assert(s2.subrange(1, s2.len() as int) =~= s1.push(p));
            } else {
                lemma_assoc_get_push_unshadowed_eq(s1, p, n);
                assert(s2.subrange(1, s2.len() as int) =~= s1.push(p));
            }
        }
    }
}

proof fn lemma_assoc_get_push_unshadowed_eq<V>(
    s: Seq<(Seq<char>, V)>,
    p: (Seq<char>, V),
    n: Seq<char>,
)
    requires
        assoc_get(s, p.0) is None,
        n != p.0,
    ensures
        assoc_get(s.push(p), n) == assoc_get(s, n),
    decreases s.len(),
{
    let s2 = s.push(p);
    if s.len() == 0 {
        assert(s2[0] == p);
        assert(s2.subrange(1, 1).len() == 0);
        assert(assoc_get(s2.subrange(1, 1), n) is None);
    } else {
        let s1 = s.subrange(1, s.len() as int);
        if s[0].0 != n {
            lemma_assoc_get_push_unshadowed_eq(s1, p, n);
            assert(s2.subrange(1, s2.len() as int) =~= s1.push(p));
        }
    }
}

proof fn lemma_assoc_get_some_if_member<V>(s: Seq<(Seq<char>, V)>, j: int)
    requires
        0 <= j < s.len(),
    ensures
        assoc_get(s, s[j].0) is Some,
    decreases j,
{
    if j > 0 && s[0].0 != s[j].0 {
        let s1 = s.subrange(1, s.len() as int);
        assert(s1[j - 1] == s[j]);
        lemma_assoc_get_some_if_member(s1, j - 1);
    }
}

// ---------------------------------------------------------------------------
// Exec helpers on entry vectors
// ---------------------------------------------------------------------------

/// The index of the first entry with the given key, if any.
#[verifier::loop_isolation(false)]
fn var_index(entries: &Vec<(String, Variant)>, name: &String) -> (r: Option<usize>)
    ensures
        match r {
            Some(i) => i < entries@.len() && entries@[i as int].0@ == name@ && forall|j: int|
                0 <= j < i ==> (#[trigger] entries@[j]).0@ != name@,
            None => forall|j: int|
                0 <= j < entries@.len() ==> (#[trigger] entries@[j]).0@ != name@,
        },
{
    let mut i: usize = 0;
    while i < entries.len()
        invariant
            i <= entries@.len(),
            forall|j: int| 0 <= j < i ==> (#[trigger] entries@[j]).0@ != name@,
        decreases entries@.len() - i,
    {
        if entries[i].0 == *name {
            return Some(i);
        }
        i = i + 1;
    }
    None
}

#[verifier::loop_isolation(false)]
fn func_index(entries: &Vec<(String, Function)>, name: &String) -> (r: Option<usize>)
    ensures
        match r {
            Some(i) => i < entries@.len() && entries@[i as int].0@ == name@ && forall|j: int|
                0 <= j < i ==> (#[trigger] entries@[j]).0@ != name@,
            None => forall|j: int|
                0 <= j < entries@.len() ==> (#[trigger] entries@[j]).0@ != name@,
        },
{
    let mut i: usize = 0;
    while i < entries.len()
        invariant
            i <= entries@.len(),
            forall|j: int| 0 <= j < i ==> (#[trigger] entries@[j]).0@ != name@,
        decreases entries@.len() - i,
    {
        if entries[i].0 == *name {
            return Some(i);
        }
        i = i + 1;
    }
    None
}

/// Writes a binding into an entry vector: replaces the first entry with the
/// same key, or appends. Returns the replaced value.
fn assoc_set_var(entries: &mut Vec<(String, Variant)>, name: &String, value: Variant) -> (prev:
    Option<Variant>)
    ensures
        vars_view(final(entries)@) == assoc_set(vars_view(old(entries)@), name@, value@),
        forall|n: Seq<char>| #[trigger]
            assoc_get(vars_view(final(entries)@), n) == if n == name@ {
                Some(value@)
            } else {
                assoc_get(vars_view(old(entries)@), n)
            },
        match prev {
            Some(p) => assoc_get(vars_view(old(entries)@), name@) == Some(p@),
            None => assoc_get(vars_view(old(entries)@), name@) is None,
        },
{
    let found = var_index(entries, name);
    match found {
        Some(i) => {
            let prev = entries[i].1.clone();
            let ghost sv = vars_view(entries@);
            entries.set(i, (name.clone(), value));
            proof {
                assert(forall|j: int|
                    0 <= j < i ==> (#[trigger] sv[j]).0 != name@);
                assert(sv[i as int].0 == name@);
                lemma_assoc_get_first_match(sv, name@, i as int);
                lemma_assoc_set_is_update(sv, i as int, name@, value@);
                assert(vars_view(final(entries)@) =~= sv.update(i as int, (name@, value@)));
                assert forall|n: Seq<char>| #[trigger]
                    assoc_get(vars_view(final(entries)@), n) == if n == name@ {
                        Some(value@)
                    } else {
                        assoc_get(sv, n)
                    } by {
                    lemma_assoc_get_update(sv, i as int, (name@, value@), n);
                }
            }
            Some(prev)
        },
        None => {
            let ghost sv = vars_view(entries@);
            entries.push((name.clone(), value));
            proof {
                assert(forall|j: int|
                    0 <= j < sv.len() ==> (#[trigger] sv[j]).0 != name@);
                lemma_assoc_get_no_match(sv, name@);
                lemma_assoc_set_is_push(sv, name@, value@);
                assert(vars_view(final(entries)@) =~= sv.push((name@, value@)));
                assert forall|n: Seq<char>| #[trigger]
                    assoc_get(vars_view(final(entries)@), n) == if n == name@ {
                        Some(value@)
                    } else {
                        assoc_get(sv, n)
                    } by {
                    lemma_assoc_get_push(sv, (name@, value@), n);
                }
            }
            None
        },
    }
}

fn assoc_set_func(entries: &mut Vec<(String, Function)>, name: &String, value: Function) -> (prev:
    Option<Function>)
    ensures
        funcs_view(final(entries)@) == assoc_set(funcs_view(old(entries)@), name@, value@),
        forall|n: Seq<char>| #[trigger]
            assoc_get(funcs_view(final(entries)@), n) == if n == name@ {
                Some(value@)
            } else {
                assoc_get(funcs_view(old(entries)@), n)
            },
        match prev {
            Some(p) => assoc_get(funcs_view(old(entries)@), name@) == Some(p@),
            None => assoc_get(funcs_view(old(entries)@), name@) is None,
        },
{
    let found = func_index(entries, name);
    match found {
        Some(i) => {
            let prev = entries[i].1.clone();
            let ghost sv = funcs_view(entries@);
            entries.set(i, (name.clone(), value));
            proof {
                assert(forall|j: int|
                    0 <= j < i ==> (#[trigger] sv[j]).0 != name@);
                assert(sv[i as int].0 == name@);
                lemma_assoc_get_first_match(sv, name@, i as int);
                lemma_assoc_set_is_update(sv, i as int, name@, value@);
                assert(funcs_view(final(entries)@) =~= sv.update(i as int, (name@, value@)));
                assert forall|n: Seq<char>| #[trigger]
                    assoc_get(funcs_view(final(entries)@), n) == if n == name@ {
                        Some(value@)
                    } else {
                        assoc_get(sv, n)
                    } by {
                    lemma_assoc_get_update(sv, i as int, (name@, value@), n);
                }
            }
            Some(prev)
        },
        None => {
            let ghost sv = funcs_view(entries@);
            entries.push((name.clone(), value));
            proof {
                assert(forall|j: int|
                    0 <= j < sv.len() ==> (#[trigger] sv[j]).0 != name@);
                lemma_assoc_get_no_match(sv, name@);
                lemma_assoc_set_is_push(sv, name@, value@);
                assert(funcs_view(final(entries)@) =~= sv.push((name@, value@)));
                assert forall|n: Seq<char>| #[trigger]
                    assoc_get(funcs_view(final(entries)@), n) == if n == name@ {
                        Some(value@)
                    } else {
                        assoc_get(sv, n)
                    } by {
                    lemma_assoc_get_push(sv, (name@, value@), n);
                }
            }
            None
        },
    }
}

// ---------------------------------------------------------------------------
// Scope methods
// ---------------------------------------------------------------------------

impl Scope {
    pub open spec fn wf(&self) -> bool {
        scope_wf(self@)
    }

    /// A fresh environment whose root frame holds the given tables.
    pub fn new(variables: Vec<(String, Variant)>, functions: Vec<(String, Function)>) -> (r: Scope)
        ensures
            r.wf(),
            r@.len() == 1,
            r@[0].vars == vars_view(variables@),
            r@[0].funcs == funcs_view(functions@),
            r@[0].parent is None,
            r@[0].destructors == Seq::<Destructor>::empty(),
    {
        let frame = Frame { vars: variables, funcs: functions, parent: None, destructors: Vec::new() };
        let mut frames: Vec<Frame> = Vec::new();
        frames.push(frame);
        let r = Scope { frames };
        proof {
            assert(r@ =~= seq![r.frames@[0]@]);
        }
        r
    }

    /// A fresh environment with nothing bound.
    pub fn empty() -> (r: Scope)
        ensures
            r.wf(),
            r@.len() == 1,
            r@[0].vars == Seq::<(Seq<char>, VariantView)>::empty(),
            r@[0].funcs == Seq::<(Seq<char>, FuncView)>::empty(),
            r@[0].parent is None,
            r@[0].destructors == Seq::<Destructor>::empty(),
    {
        let r = Scope::new(Vec::new(), Vec::new());
        proof {
            assert(vars_view(Seq::<(String, Variant)>::empty()) =~= Seq::<(
                Seq<char>,
                VariantView,
            )>::empty());
            assert(funcs_view(Seq::<(String, Function)>::empty()) =~= Seq::<(
                Seq<char>,
                FuncView,
            )>::empty());
        }
        r
    }

    /// The root frame's handle.
    pub fn root(&self) -> (r: ScopeId)
        ensures
            r == 0,
    {
        0
    }

    /// Creates a child frame whose lookups fall back to `parent`, and returns
    /// its handle. Existing frames are untouched.
    pub fn from_scope(&mut self, parent: ScopeId) -> (r: ScopeId)
        requires
            old(self).wf(),
            parent < old(self)@.len(),
        ensures
            final(self).wf(),
            r == old(self)@.len(),
            final(self)@.len() == old(self)@.len() + 1,
            forall|j: int|
                0 <= j < old(self)@.len() ==> #[trigger] final(self)@[j] == old(self)@[j],
            final(self)@[r as int].vars == Seq::<(Seq<char>, VariantView)>::empty(),
            final(self)@[r as int].funcs == Seq::<(Seq<char>, FuncView)>::empty(),
            final(self)@[r as int].parent == Some(parent as int),
            final(self)@[r as int].destructors == Seq::<Destructor>::empty(),
    {
        let r = self.frames.len();
        let frame = Frame {
            vars: Vec::new(),
            funcs: Vec::new(),
            parent: Some(parent),
            destructors: Vec::new(),
        };
        let ghost fv = frame@;
        self.frames.push(frame);
        proof {
            assert(self@ =~= old(self)@.push(fv));
            assert(vars_view(Seq::<(String, Variant)>::empty()) =~= Seq::<(
                Seq<char>,
                VariantView,
            )>::empty());
            assert(funcs_view(Seq::<(String, Function)>::empty()) =~= Seq::<(
                Seq<char>,
                FuncView,
            )>::empty());
        }
        r
    }

    /// The variable bound under `name`, looked up from frame `at` along the
    /// parent chain.
    pub fn get_variable(&self, at: ScopeId, name: &str) -> (r: Option<Variant>)
        requires
            self.wf(),
            at < self@.len(),
        ensures
            match r {
                Some(v) => scope_lookup_var(self@, at as int, name@) == Some(v@),
                None => scope_lookup_var(self@, at as int, name@) is None,
            },
        decreases at,
    {
        let key = name.to_owned();
        let found = var_index(&self.frames[at].vars, &key);
        match found {
            Some(i) => {
                proof {
                    lemma_assoc_get_first_match(self@[at as int].vars, name@, i as int);
                }
                Some(self.frames[at].vars[i].1.clone())
            },
            None => {
                proof {
                    lemma_assoc_get_no_match(self@[at as int].vars, name@);
                }
                match self.frames[at].parent {
                    Some(p) => self.get_variable(p, name),
                    None => None,
                }
            },
        }
    }

    /// Whether `name` is bound as a variable, from frame `at` along the chain.
    pub fn has_variable(&self, at: ScopeId, name: &str) -> (r: bool)
        requires
            self.wf(),
            at < self@.len(),
        ensures
            r == scope_lookup_var(self@, at as int, name@).is_some(),
    {
        self.get_variable(at, name).is_some()
    }

    /// Binds `name` to `value` in frame `at` itself, never in an ancestor,
    /// and returns the value it replaced there, if any.
    pub fn set_variable(&mut self, at: ScopeId, name: &str, value: Variant) -> (prev: Option<
        Variant,
    >)
        requires
            old(self).wf(),
            at < old(self)@.len(),
        ensures
            final(self).wf(),
            final(self)@.len() == old(self)@.len(),
            forall|j: int|
                0 <= j < old(self)@.len() && j != at ==> #[trigger] final(self)@[j] == old(
                    self,
                )@[j],
            final(self)@ == old(self)@.update(
                at as int,
                FrameView {
                    vars: assoc_set(old(self)@[at as int].vars, name@, value@),
                    ..old(self)@[at as int]
                },
            ),
            final(self)@[at as int].funcs == old(self)@[at as int].funcs,
            final(self)@[at as int].parent == old(self)@[at as int].parent,
            final(self)@[at as int].destructors == old(self)@[at as int].destructors,
            forall|n: Seq<char>| #[trigger]
                assoc_get(final(self)@[at as int].vars, n) == if n == name@ {
                    Some(value@)
                } else {
                    assoc_get(old(self)@[at as int].vars, n)
                },
            match prev {
                Some(p) => assoc_get(old(self)@[at as int].vars, name@) == Some(p@),
                None => assoc_get(old(self)@[at as int].vars, name@) is None,
            },
    {
        let key = name.to_owned();
        let frame = &self.frames[at];
        let mut vars = clone_var_entries(&frame.vars);
        let funcs = clone_func_entries(&frame.funcs);
        let destructors = copy_destructors(&frame.destructors);
        let parent = frame.parent;
        let ghost vv = value@;
        let prev = assoc_set_var(&mut vars, &key, value);
        let new_frame = Frame { vars, funcs, parent, destructors };
        let ghost old_view = self@;
        self.frames.set(at, new_frame);
        proof {
            assert(forall|j: int|
                0 <= j < old_view.len() && j != at ==> #[trigger] self@[j] == old_view[j]);
            assert(self@ =~= old_view.update(
                at as int,
                FrameView {
                    vars: assoc_set(old_view[at as int].vars, name@, vv),
                    ..old_view[at as int]
                },
            ));
        }
        prev
    }

    /// The function bound under `name`, looked up from frame `at` along the
    /// parent chain.
    pub fn get_function(&self, at: ScopeId, name: &str) -> (r: Option<Function>)
        requires
            self.wf(),
            at < self@.len(),
        ensures
            match r {
                Some(v) => scope_lookup_fn(self@, at as int, name@) == Some(v@),
                None => scope_lookup_fn(self@, at as int, name@) is None,
            },
        decreases at,
    {
        let key = name.to_owned();
        let found = func_index(&self.frames[at].funcs, &key);
        match found {
            Some(i) => {
                proof {
                    lemma_assoc_get_first_match(self@[at as int].funcs, name@, i as int);
                }
                Some(self.frames[at].funcs[i].1.clone())
            },
            None => {
                proof {
                    lemma_assoc_get_no_match(self@[at as int].funcs, name@);
                }
                match self.frames[at].parent {
                    Some(p) => self.get_function(p, name),
                    None => None,
                }
            },
        }
    }

    /// Whether `name` is bound as a function, from frame `at` along the chain.
    pub fn has_function(&self, at: ScopeId, name: &str) -> (r: bool)
        requires
            self.wf(),
            at < self@.len(),
        ensures
            r == scope_lookup_fn(self@, at as int, name@).is_some(),
    {
        self.get_function(at, name).is_some()
    }

    /// Binds `name` to `func` in frame `at` itself, never in an ancestor,
    /// and returns the function it replaced there, if any.
    pub fn set_function(&mut self, at: ScopeId, name: &str, func: Function) -> (prev: Option<
        Function,
    >)
        requires
            old(self).wf(),
            at < old(self)@.len(),
        ensures
            final(self).wf(),
            final(self)@.len() == old(self)@.len(),
            forall|j: int|
                0 <= j < old(self)@.len() && j != at ==> #[trigger] final(self)@[j] == old(
                    self,
                )@[j],
            final(self)@ == old(self)@.update(
                at as int,
                FrameView {
                    funcs: assoc_set(old(self)@[at as int].funcs, name@, func@),
                    ..old(self)@[at as int]
                },
            ),
            final(self)@[at as int].vars == old(self)@[at as int].vars,
            final(self)@[at as int].parent == old(self)@[at as int].parent,
            final(self)@[at as int].destructors == old(self)@[at as int].destructors,
            forall|n: Seq<char>| #[trigger]
                assoc_get(final(self)@[at as int].funcs, n) == if n == name@ {
                    Some(func@)
                } else {
                    assoc_get(old(self)@[at as int].funcs, n)
                },
            match prev {
                Some(p) => assoc_get(old(self)@[at as int].funcs, name@) == Some(p@),
                None => assoc_get(old(self)@[at as int].funcs, name@) is None,
            },
    {
        let key = name.to_owned();
        let frame = &self.frames[at];
        let vars = clone_var_entries(&frame.vars);
        let mut funcs = clone_func_entries(&frame.funcs);
        let destructors = copy_destructors(&frame.destructors);
        let parent = frame.parent;
        let ghost fv = func@;
        let prev = assoc_set_func(&mut funcs, &key, func);
        let new_frame = Frame { vars, funcs, parent, destructors };
        let ghost old_view = self@;
        self.frames.set(at, new_frame);
        proof {
            assert(forall|j: int|
                0 <= j < old_view.len() && j != at ==> #[trigger] self@[j] == old_view[j]);
            assert(self@ =~= old_view.update(
                at as int,
                FrameView {
                    funcs: assoc_set(old_view[at as int].funcs, name@, fv),
                    ..old_view[at as int]
                },
            ));
        }
        prev
    }

    /// Registers a cleanup action on frame `at`; actions run in registration
    /// order at teardown.
    pub fn add_destructor(&mut self, at: ScopeId, destructor: Destructor)
        requires
            old(self).wf(),
            at < old(self)@.len(),
        ensures
            final(self).wf(),
            final(self)@.len() == old(self)@.len(),
            forall|j: int|
                0 <= j < old(self)@.len() && j != at ==> #[trigger] final(self)@[j] == old(
                    self,
                )@[j],
            final(self)@[at as int].vars == old(self)@[at as int].vars,
            final(self)@[at as int].funcs == old(self)@[at as int].funcs,
            final(self)@[at as int].parent == old(self)@[at as int].parent,
            final(self)@[at as int].destructors == old(self)@[at as int].destructors.push(
                destructor,
            ),
    {
        let frame = &self.frames[at];
        let vars = clone_var_entries(&frame.vars);
        let funcs = clone_func_entries(&frame.funcs);
        let mut destructors = copy_destructors(&frame.destructors);
        let parent = frame.parent;
        destructors.push(destructor);
        let new_frame = Frame { vars, funcs, parent, destructors };
        let ghost old_view = self@;
        self.frames.set(at, new_frame);
        proof {
            assert(forall|j: int|
                0 <= j < old_view.len() && j != at ==> #[trigger] self@[j] == old_view[j]);
        }
    }

    /// The cleanup actions registered on frame `at`, in order.
    pub fn destructors(&self, at: ScopeId) -> (r: Vec<Destructor>)
        requires
            at < self@.len(),
        ensures
            r@ == self@[at as int].destructors,
    {
        copy_destructors(&self.frames[at].destructors)
    }

    /// The variable bound under `name` in frame `at` itself, not consulting
    /// the parent chain.
    pub fn get_local_variable(&self, at: ScopeId, name: &str) -> (r: Option<Variant>)
        requires
            at < self@.len(),
        ensures
            match r {
                Some(v) => assoc_get(self@[at as int].vars, name@) == Some(v@),
                None => assoc_get(self@[at as int].vars, name@) is None,
            },
    {
        let key = name.to_owned();
        let found = var_index(&self.frames[at].vars, &key);
        match found {
            Some(i) => {
                proof {
                    lemma_assoc_get_first_match(self@[at as int].vars, name@, i as int);
                }
                Some(self.frames[at].vars[i].1.clone())
            },
            None => {
                proof {
                    lemma_assoc_get_no_match(self@[at as int].vars, name@);
                }
                None
            },
        }
    }

    /// The function bound under `name` in frame `at` itself, not consulting
    /// the parent chain.
    pub fn get_local_function(&self, at: ScopeId, name: &str) -> (r: Option<Function>)
        requires
            at < self@.len(),
        ensures
            match r {
                Some(v) => assoc_get(self@[at as int].funcs, name@) == Some(v@),
                None => assoc_get(self@[at as int].funcs, name@) is None,
            },
    {
        let key = name.to_owned();
        let found = func_index(&self.frames[at].funcs, &key);
        match found {
            Some(i) => {
                proof {
                    lemma_assoc_get_first_match(self@[at as int].funcs, name@, i as int);
                }
                Some(self.frames[at].funcs[i].1.clone())
            },
            None => {
                proof {
                    lemma_assoc_get_no_match(self@[at as int].funcs, name@);
                }
                None
            },
        }
    }

    /// Every variable binding visible from frame `at`: the whole chain
    /// merged, a frame's own binding shadowing an ancestor's.
    #[verifier::loop_isolation(false)]
    pub fn get_variables(&self, at: ScopeId) -> (r: Vec<(String, Variant)>)
        requires
            self.wf(),
            at < self@.len(),
        ensures
            forall|n: Seq<char>| #[trigger]
                assoc_get(vars_view(r@), n) == scope_lookup_var(self@, at as int, n),
        decreases at,
    {
        let mut out: Vec<(String, Variant)> = match self.frames[at].parent {
            Some(p) => self.get_variables(p),
            None => Vec::new(),
        };
        proof {
            if self@[at as int].parent is None {
                assert(vars_view(Seq::<(String, Variant)>::empty()) =~= Seq::<(
                    Seq<char>,
                    VariantView,
                )>::empty());
                assert(forall|n: Seq<char>| #[trigger]
                    assoc_get(vars_view(out@), n) is None);
            }
        }
        let ghost base = vars_view(out@);
        let ghost lv = self@[at as int].vars;
        let local = clone_var_entries(&self.frames[at].vars);
        let mut i: usize = 0;
        while i < local.len()
            invariant
                i <= local@.len(),
                vars_view(local@) == lv,
                forall|n: Seq<char>| #[trigger]
                    assoc_get(vars_view(out@), n) == match assoc_get(lv.subrange(0, i as int), n) {
                        Some(v) => Some(v),
                        None => assoc_get(base, n),
                    },
            decreases local@.len() - i,
        {
            proof {
                assert(lv.subrange(0, i + 1) =~= lv.subrange(0, i as int).push(lv[i as int]));
            }
            let mut seen = false;
            let mut j: usize = 0;
            while j < i
                invariant
                    j <= i,
                    i < local@.len(),
                    vars_view(local@) == lv,
                    seen ==> assoc_get(lv.subrange(0, i as int), lv[i as int].0) is Some,
                    !seen ==> forall|k: int|
                        0 <= k < j ==> (#[trigger] lv.subrange(0, i as int)[k]).0 != lv[
                            i as int
                        ].0,
                decreases i - j,
            {
                if local[j].0 == local[i].0 {
                    proof {
                        lemma_assoc_get_some_if_member(lv.subrange(0, i as int), j as int);
                    }
                    seen = true;
                    j = i;
                } else {
                    j = j + 1;
                }
            }
            let ghost before = vars_view(out@);
            if seen {
                proof {
                    assert forall|n: Seq<char>| #[trigger]
                        assoc_get(lv.subrange(0, i + 1), n) == assoc_get(
                            lv.subrange(0, i as int),
                            n,
                        ) by {
                        lemma_assoc_get_push_shadowed(
                            lv.subrange(0, i as int),
                            lv[i as int],
                            n,
                        );
                    }
                }
            } else {
                proof {
                    lemma_assoc_get_no_match(lv.subrange(0, i as int), lv[i as int].0);
                }
                let key = local[i].0.clone();
                let value = local[i].1.clone();
                assoc_set_var(&mut out, &key, value);
                proof {
                    assert forall|n: Seq<char>| #[trigger]
                        assoc_get(vars_view(out@), n) == match assoc_get(
                            lv.subrange(0, i + 1),
                            n,
                        ) {
                            Some(v) => Some(v),
                            None => assoc_get(base, n),
                        } by {
                        lemma_assoc_get_push(lv.subrange(0, i as int), lv[i as int], n);
                    }
                }
            }
            i = i + 1;
        }
        proof {
            assert(lv.subrange(0, local@.len() as int) =~= lv);
        }
        out
    }

    /// Every function binding visible from frame `at`: the whole chain
    /// merged, a frame's own binding shadowing an ancestor's.
    #[verifier::loop_isolation(false)]
    pub fn get_functions(&self, at: ScopeId) -> (r: Vec<(String, Function)>)
        requires
            self.wf(),
            at < self@.len(),
        ensures
            forall|n: Seq<char>| #[trigger]
                assoc_get(funcs_view(r@), n) == scope_lookup_fn(self@, at as int, n),
        decreases at,
    {
        let mut out: Vec<(String, Function)> = match self.frames[at].parent {
            Some(p) => self.get_functions(p),
            None => Vec::new(),
        };
        proof {
            if self@[at as int].parent is None {
                assert(funcs_view(Seq::<(String, Function)>::empty()) =~= Seq::<(
                    Seq<char>,
                    FuncView,
                )>::empty());
                assert(forall|n: Seq<char>| #[trigger]
                    assoc_get(funcs_view(out@), n) is None);
            }
        }
        let ghost base = funcs_view(out@);
        let ghost lv = self@[at as int].funcs;
        let local = clone_func_entries(&self.frames[at].funcs);
        let mut i: usize = 0;
        while i < local.len()
            invariant
                i <= local@.len(),
                funcs_view(local@) == lv,
                forall|n: Seq<char>| #[trigger]
                    assoc_get(funcs_view(out@), n) == match assoc_get(lv.subrange(0, i as int), n) {
                        Some(v) => Some(v),
                        None => assoc_get(base, n),
                    },
            decreases local@.len() - i,
        {
            proof {
                assert(lv.subrange(0, i + 1) =~= lv.subrange(0, i as int).push(lv[i as int]));
            }
            let mut seen = false;
            let mut j: usize = 0;
            while j < i
                invariant
                    j <= i,
                    i < local@.len(),
                    funcs_view(local@) == lv,
                    seen ==> assoc_get(lv.subrange(0, i as int), lv[i as int].0) is Some,
                    !seen ==> forall|k: int|
                        0 <= k < j ==> (#[trigger] lv.subrange(0, i as int)[k]).0 != lv[
                            i as int
                        ].0,
                decreases i - j,
            {
                if local[j].0 == local[i].0 {
                    proof {
                        lemma_assoc_get_some_if_member(lv.subrange(0, i as int), j as int);
                    }
                    seen = true;
                    j = i;
                } else {
                    j = j + 1;
                }
            }
            if seen {
                proof {
                    assert forall|n: Seq<char>| #[trigger]
                        assoc_get(lv.subrange(0, i + 1), n) == assoc_get(
                            lv.subrange(0, i as int),
                            n,
                        ) by {
                        lemma_assoc_get_push_shadowed(
                            lv.subrange(0, i as int),
                            lv[i as int],
                            n,
                        );
                    }
                }
            } else {
                proof {
                    lemma_assoc_get_no_match(lv.subrange(0, i as int), lv[i as int].0);
                }
                let key = local[i].0.clone();
                let value = local[i].1.clone();
                assoc_set_func(&mut out, &key, value);
                proof {
                    assert forall|n: Seq<char>| #[trigger]
                        assoc_get(funcs_view(out@), n) == match assoc_get(
                            lv.subrange(0, i + 1),
                            n,
                        ) {
                            Some(v) => Some(v),
                            None => assoc_get(base, n),
                        } by {
                        lemma_assoc_get_push(lv.subrange(0, i as int), lv[i as int], n);
                    }
                }
            }
            i = i + 1;
        }
        proof {
            assert(lv.subrange(0, local@.len() as int) =~= lv);
        }
        out
    }

    /// The bindings of frame `at` itself, without the parent chain.
    pub fn local_variables(&self, at: ScopeId) -> (r: Vec<(String, Variant)>)
        requires
            at < self@.len(),
        ensures
            vars_view(r@) == self@[at as int].vars,
    {
        clone_var_entries(&self.frames[at].vars)
    }

    /// The function bindings of frame `at` itself, without the parent chain.
    pub fn local_functions(&self, at: ScopeId) -> (r: Vec<(String, Function)>)
        requires
            at < self@.len(),
        ensures
            funcs_view(r@) == self@[at as int].funcs,
    {
        clone_func_entries(&self.frames[at].funcs)
    }

    /// The number of frames in the arena.
    pub fn frame_count(&self) -> (r: usize)
        ensures
            r == self@.len(),
    {
        self.frames.len()
    }
}

fn clone_var_entries(entries: &Vec<(String, Variant)>) -> (r: Vec<(String, Variant)>)
    ensures
        vars_view(r@) == vars_view(entries@),
{
    let mut out: Vec<(String, Variant)> = Vec::new();
    let mut i: usize = 0;
    while i < entries.len()
        invariant
            i <= entries@.len(),
            out@.len() == i as nat,
            forall|j: int|
                0 <= j < i ==> (#[trigger] out@[j]).0@ == entries@[j].0@ && out@[j].1@
                    == entries@[j].1@,
        decreases entries@.len() - i,
    {
        out.push((entries[i].0.clone(), entries[i].1.clone()));
        i = i + 1;
    }
    proof {
        assert(vars_view(out@) =~= vars_view(entries@));
    }
    out
}

fn clone_func_entries(entries: &Vec<(String, Function)>) -> (r: Vec<(String, Function)>)
    ensures
        funcs_view(r@) == funcs_view(entries@),
{
    let mut out: Vec<(String, Function)> = Vec::new();
    let mut i: usize = 0;
    while i < entries.len()
        invariant
            i <= entries@.len(),
            out@.len() == i as nat,
            forall|j: int|
                0 <= j < i ==> (#[trigger] out@[j]).0@ == entries@[j].0@ && out@[j].1@
                    == entries@[j].1@,
        decreases entries@.len() - i,
    {
        out.push((entries[i].0.clone(), entries[i].1.clone()));
        i = i + 1;
    }
    proof {
        assert(funcs_view(out@) =~= funcs_view(entries@));
    }
    out
}

fn copy_destructors(ds: &Vec<Destructor>) -> (r: Vec<Destructor>)
    ensures
        r@ == ds@,
{
    let mut out: Vec<Destructor> = Vec::new();
    let mut i: usize = 0;
    while i < ds.len()
        invariant
            i <= ds@.len(),
            out@ =~= ds@.subrange(0, i as int),
        decreases ds@.len() - i,
    {
        out.push(ds[i]);
        proof {
            assert(out@ =~= ds@.subrange(0, i + 1 as int));
        }
        i = i + 1;
    }
    proof {
        assert(ds@.subrange(0, ds@.len() as int) =~= ds@);
    }
    out
}

impl Clone for Scope {
    fn clone(&self) -> (res: Self)
        ensures
            res@ == self@,
    {
        let mut frames: Vec<Frame> = Vec::new();
        let mut i: usize = 0;
        while i < self.frames.len()
            invariant
                i <= self.frames@.len(),
                frames@.len() == i as nat,
                forall|j: int| 0 <= j < i ==> (#[trigger] frames@[j])@ == self.frames@[j]@,
            decreases self.frames@.len() - i,
        {
            let f = &self.frames[i];
            let frame = Frame {
                vars: clone_var_entries(&f.vars),
                funcs: clone_func_entries(&f.funcs),
                parent: f.parent,
                destructors: copy_destructors(&f.destructors),
            };
            frames.push(frame);
            i = i + 1;
        }
        let res = Scope { frames };
        proof {
            assert(res@ =~= self@);
        }
        res
    }
}

// ---------------------------------------------------------------------------
// The scoping laws
// ---------------------------------------------------------------------------

/// Whether frame `c` lies on the lookup chain that starts at `at`.
pub open spec fn in_chain(sv: Seq<FrameView>, at: int, c: int) -> bool
    decreases (if at >= 0 { at } else { 0 }),
{
    if !(0 <= at < sv.len()) {
        false
    } else if at == c {
        true
    } else {
        match sv[at].parent {
            Some(p) => if 0 <= p < at {
                in_chain(sv, p, c)
            } else {
                false
            },
            None => false,
        }
    }
}

/// For a child frame C with parent P, a lookup from C returns C's own
/// binding if present, and otherwise what a lookup from P returns.
pub proof fn lemma_child_lookup(sv: Seq<FrameView>, c: int, name: Seq<char>)
    requires
        scope_wf(sv),
        0 <= c < sv.len(),
        sv[c].parent is Some,
    ensures
        scope_lookup_var(sv, c, name) == match assoc_get(sv[c].vars, name) {
            Some(v) => Some(v),
            None => scope_lookup_var(sv, sv[c].parent->0, name),
        },
{
}

/// A write into frame `c` cannot be seen by any lookup whose chain avoids
/// `c`: the two arenas agree everywhere outside `c`.
pub proof fn lemma_lookup_skips_unrelated(
    sv: Seq<FrameView>,
    sv2: Seq<FrameView>,
    c: int,
    at: int,
    name: Seq<char>,
)
    requires
        scope_wf(sv),
        sv2.len() == sv.len(),
        forall|j: int| 0 <= j < sv.len() && j != c ==> #[trigger] sv2[j] == sv[j],
        0 <= at < sv.len(),
        !in_chain(sv, at, c),
    ensures
        scope_lookup_var(sv2, at, name) == scope_lookup_var(sv, at, name),
    decreases at,
{
    assert(sv2[at] == sv[at]);
    match sv[at].parent {
        Some(p) => {
            if 0 <= p < at {
                lemma_lookup_skips_unrelated(sv, sv2, c, p, name);
            }
        },
        None => {},
    }
}

/// A frame never lies on its own parent's chain: chains only walk toward
/// earlier frames.
pub proof fn lemma_chain_descends(sv: Seq<FrameView>, at: int, c: int)
    requires
        scope_wf(sv),
        0 <= at < sv.len(),
        at < c,
    ensures
        !in_chain(sv, at, c),
    decreases at,
{
    match sv[at].parent {
        Some(p) => {
            if 0 <= p < at {
                lemma_chain_descends(sv, p, c);
            }
        },
        None => {},
    }
}

/// Writing into a child frame never changes what its parent sees: after a
/// write into frame `c`, every lookup from `c`'s parent is unchanged.
pub proof fn lemma_set_never_mutates_parent(
    sv: Seq<FrameView>,
    sv2: Seq<FrameView>,
    c: int,
    name: Seq<char>,
)
    requires
        scope_wf(sv),
        0 <= c < sv.len(),
        sv[c].parent is Some,
        sv2.len() == sv.len(),
        forall|j: int| 0 <= j < sv.len() && j != c ==> #[trigger] sv2[j] == sv[j],
    ensures
        scope_lookup_var(sv2, sv[c].parent->0, name) == scope_lookup_var(
            sv,
            sv[c].parent->0,
            name,
        ),
{
    let p = sv[c].parent->0;
    lemma_chain_descends(sv, p, c);
    lemma_lookup_skips_unrelated(sv, sv2, c, p, name);
}

} // verus!
