//! The order of paths: component by component, as paths on Unix compare. A path is a
//! root, a current directory mark, parent directory marks and names, separated by `/`;
//! empty and `.` components between separators are left out.
use vstd::prelude::*;

use crate::text::chars_of;

verus! {

/// A component of a path.
pub enum Component {
    /// The root of an absolute path.
    RootDir,
    /// The `.` that a relative path starts with.
    CurDir,
    /// A `..` component.
    ParentDir,
    /// A name.
    Normal(Vec<char>),
}

/// A component of a path, as characters.
pub enum ComponentView {
    RootDir,
    CurDir,
    ParentDir,
    Normal(Seq<char>),
}

/// The view of a component.
pub open spec fn component_view(c: Component) -> ComponentView {
    match c {
        Component::RootDir => ComponentView::RootDir,
        Component::CurDir => ComponentView::CurDir,
        Component::ParentDir => ComponentView::ParentDir,
        Component::Normal(v) => ComponentView::Normal(v@),
    }
}

/// The views of a list of components.
pub open spec fn components_view(v: Seq<Component>) -> Seq<ComponentView> {
    v.map_values(|c: Component| component_view(c))
}

/// The component that the text between two separators stands for: none for an empty
/// text or `.`.
pub open spec fn segment(seg: Seq<char>) -> Seq<ComponentView> {
    if seg.len() == 0 || seg == seq!['.'] {
        seq![]
    } else if seg == seq!['.', '.'] {
        seq![ComponentView::ParentDir]
    } else {
        seq![ComponentView::Normal(seg)]
    }
}

/// The components of `s`, where the text `cur` of the current component comes before it.
pub open spec fn split_body(s: Seq<char>, cur: Seq<char>) -> Seq<ComponentView>
    decreases s.len(),
{
    if s.len() == 0 {
        segment(cur)
    } else if s[0] == '/' {
        segment(cur) + split_body(s.drop_first(), seq![])
    } else {
        split_body(s.drop_first(), cur.push(s[0]))
    }
}

/// The components of a path.
pub open spec fn path_components(s: Seq<char>) -> Seq<ComponentView> {
    if s.len() > 0 && s[0] == '/' {
        seq![ComponentView::RootDir] + split_body(s.drop_first(), seq![])
    } else if s.len() > 0 && s[0] == '.' && (s.len() == 1 || s[1] == '/') {
        seq![ComponentView::CurDir] + split_body(s.drop_first(), seq![])
    } else {
        split_body(s, seq![])
    }
}

/// Whether text `a` comes before text `b`: character by character, a shorter text before
/// a longer one that begins with it.
pub open spec fn chars_lt(a: Seq<char>, b: Seq<char>) -> bool
    decreases a.len(),
{
    if a.len() == 0 {
        b.len() > 0
    } else if b.len() == 0 {
        false
    } else if a[0] == b[0] {
        chars_lt(a.drop_first(), b.drop_first())
    } else {
        (a[0] as int) < (b[0] as int)
    }
}

/// The rank of a component's kind: roots first, names last.
pub open spec fn kind_rank(c: ComponentView) -> int {
    match c {
        ComponentView::RootDir => 0,
        ComponentView::CurDir => 1,
        ComponentView::ParentDir => 2,
        ComponentView::Normal(_) => 3,
    }
}

/// Whether component `a` comes before component `b`: by kind, and names by their text.
pub open spec fn component_lt(a: ComponentView, b: ComponentView) -> bool {
    match (a, b) {
        (ComponentView::Normal(x), ComponentView::Normal(y)) => chars_lt(x, y),
        _ => kind_rank(a) < kind_rank(b),
    }
}

/// Whether the components `a` come before the components `b`: component by component, a
/// shorter list before a longer one that begins with it.
pub open spec fn components_lt(a: Seq<ComponentView>, b: Seq<ComponentView>) -> bool
    decreases a.len(),
{
    if a.len() == 0 {
        b.len() > 0
    } else if b.len() == 0 {
        false
    } else if a[0] == b[0] {
        components_lt(a.drop_first(), b.drop_first())
    } else {
        component_lt(a[0], b[0])
    }
}

/// Whether path `a` comes before path `b`.
pub open spec fn path_lt(a: Seq<char>, b: Seq<char>) -> bool {
    components_lt(path_components(a), path_components(b))
}

proof fn lemma_chars_lt_order(a: Seq<char>, b: Seq<char>, c: Seq<char>)
    ensures
        !(chars_lt(a, b) && chars_lt(b, a)),
        a != b ==> chars_lt(a, b) || chars_lt(b, a),
        chars_lt(a, b) && chars_lt(b, c) ==> chars_lt(a, c),
    decreases a.len(),
{
    if a.len() > 0 && b.len() > 0 && a[0] == b[0] {
        if c.len() > 0 {
            lemma_chars_lt_order(a.drop_first(), b.drop_first(), c.drop_first());
        } else {
            lemma_chars_lt_order(a.drop_first(), b.drop_first(), c);
        }
        if a.drop_first() == b.drop_first() {
            assert(a =~= seq![a[0]] + a.drop_first());
            assert(b =~= seq![b[0]] + b.drop_first());
        }
    } else if a.len() == 0 && b.len() == 0 {
        assert(a =~= b);
    } else if a.len() > 0 && b.len() > 0 {
        assert((a[0] as int) != (b[0] as int));
    }
}

proof fn lemma_component_lt_order(a: ComponentView, b: ComponentView, c: ComponentView)
    ensures
        !(component_lt(a, b) && component_lt(b, a)),
        a != b ==> component_lt(a, b) || component_lt(b, a),
        component_lt(a, b) && component_lt(b, c) ==> component_lt(a, c),
{
    match (a, b, c) {
        (ComponentView::Normal(x), ComponentView::Normal(y), ComponentView::Normal(z)) => {
            lemma_chars_lt_order(x, y, z);
        },
        (ComponentView::Normal(x), ComponentView::Normal(y), _) => {
            lemma_chars_lt_order(x, y, y);
        },
        _ => {},
    }
}

/// Paths are ordered strictly by their components: no two paths each come before the other,
/// of two paths with different components one comes first, and the order is transitive.
pub proof fn lemma_components_lt_order(a: Seq<ComponentView>, b: Seq<ComponentView>, c: Seq<ComponentView>)
    ensures
        !(components_lt(a, b) && components_lt(b, a)),
        a != b ==> components_lt(a, b) || components_lt(b, a),
        components_lt(a, b) && components_lt(b, c) ==> components_lt(a, c),
    decreases a.len(),
{
    if a.len() > 0 && b.len() > 0 {
        lemma_component_lt_order(a[0], b[0], if c.len() > 0 { c[0] } else { b[0] });
        if c.len() > 0 {
            lemma_component_lt_order(a[0], c[0], b[0]);
            lemma_component_lt_order(b[0], c[0], a[0]);
            lemma_component_lt_order(c[0], a[0], b[0]);
        }
        if a[0] == b[0] {
            if c.len() > 0 {
                lemma_components_lt_order(a.drop_first(), b.drop_first(), c.drop_first());
            } else {
                lemma_components_lt_order(a.drop_first(), b.drop_first(), c);
            }
            if a.drop_first() == b.drop_first() {
                assert(a =~= seq![a[0]] + a.drop_first());
                assert(b =~= seq![b[0]] + b.drop_first());
            }
        } else if c.len() > 0 && b[0] == c[0] {
        } else if c.len() > 0 && a[0] == c[0] {
        }
    } else if a.len() == 0 && b.len() == 0 {
        assert(a =~= b);
    }
}

/// Adds the component that the text `seg` stands for, if any.
fn push_segment(out: &mut Vec<Component>, seg: Vec<char>)
    ensures
        components_view(final(out)@) == components_view(old(out)@) + segment(seg@),
{
    let ghost before = components_view(out@);
    let n = seg.len();
    if n == 0 {
        assert(components_view(out@) =~= before + segment(seg@));
    } else if n == 1 && seg[0] == '.' {
        assert(seg@ =~= seq!['.']);
        assert(components_view(out@) =~= before + segment(seg@));
    } else if n == 2 && seg[0] == '.' && seg[1] == '.' {
        assert(seg@ =~= seq!['.', '.']);
        assert(seg@ != seq!['.']);
        out.push(Component::ParentDir);
        assert(components_view(out@) =~= before + segment(seg@));
    } else {
        assert(seg@ != seq!['.']) by {
            if n == 1 {
                assert(seg@[0] != seq!['.'][0]);
            }
        }
        assert(seg@ != seq!['.', '.']) by {
            if n == 2 {
                assert(seg@[0] != '.' || seg@[1] != '.');
            }
        }
        let ghost sv = seg@;
        out.push(Component::Normal(seg));
        assert(components_view(out@) =~= before + segment(sv));
    }
}

/// Splits the text of `s` from position `start` on into components.
fn split_components(s: &Vec<char>, start: usize) -> (r: Vec<Component>)
    requires
        start <= s@.len(),
    ensures
        components_view(r@) == split_body(s@.skip(start as int), seq![]),
{
    let mut out: Vec<Component> = Vec::new();
    let mut cur: Vec<char> = Vec::new();
    let mut i: usize = start;
    assert(components_view(out@) + split_body(s@.skip(start as int), cur@) =~= split_body(
        s@.skip(start as int),
        seq![],
    ));
    while i < s.len()
        invariant
            start <= i <= s@.len(),
            components_view(out@) + split_body(s@.skip(i as int), cur@) == split_body(
                s@.skip(start as int),
                seq![],
            ),
        decreases s@.len() - i,
    {
        let ghost rest = s@.skip(i as int);
        let ghost before = components_view(out@);
        let ghost c0 = cur@;
        assert(rest.drop_first() =~= s@.skip(i + 1));
        assert(rest[0] == s@[i as int]);
        if s[i] == '/' {
            let seg = cur;
            cur = Vec::new();
            push_segment(&mut out, seg);
            assert(components_view(out@) + split_body(s@.skip(i + 1), cur@) =~= before + (segment(c0)
                + split_body(rest.drop_first(), seq![])));
        } else {
            cur.push(s[i]);
        }
        i = i + 1;
    }
    assert(s@.skip(i as int) =~= Seq::<char>::empty());
    let ghost before = components_view(out@);
    let ghost c0 = cur@;
    push_segment(&mut out, cur);
    assert(components_view(out@) =~= before + segment(c0));
    out
}

/// Splits a path into its components.
pub fn components_of(s: &str) -> (r: Vec<Component>)
    ensures
        components_view(r@) == path_components(s@),
{
    let v = chars_of(s);
    let n = v.len();
    if n > 0 && v[0] == '/' {
        let mut out = vec![Component::RootDir];
        let mut rest = split_components(&v, 1);
        let ghost rv = components_view(rest@);
        out.append(&mut rest);
        assert(v@.skip(1) =~= s@.drop_first());
        assert(components_view(out@) =~= seq![ComponentView::RootDir] + rv);
        out
    } else if n > 0 && v[0] == '.' && (n == 1 || v[1] == '/') {
        let mut out = vec![Component::CurDir];
        let mut rest = split_components(&v, 1);
        let ghost rv = components_view(rest@);
        out.append(&mut rest);
        assert(v@.skip(1) =~= s@.drop_first());
        assert(components_view(out@) =~= seq![ComponentView::CurDir] + rv);
        out
    } else {
        assert(v@.skip(0) =~= s@);
        split_components(&v, 0)
    }
}

proof fn lemma_chars_lt_skip(a: Seq<char>, b: Seq<char>, i: int)
    requires
        0 <= i <= a.len(),
        i <= b.len(),
        a.take(i) == b.take(i),
    ensures
        chars_lt(a, b) == chars_lt(a.skip(i), b.skip(i)),
    decreases i,
{
    if i > 0 {
        assert(a[0] == a.take(i)[0]);
        assert(b[0] == b.take(i)[0]);
        assert(a.drop_first().take(i - 1) =~= a.take(i).drop_first());
        assert(b.drop_first().take(i - 1) =~= b.take(i).drop_first());
        lemma_chars_lt_skip(a.drop_first(), b.drop_first(), i - 1);
        assert(a.drop_first().skip(i - 1) =~= a.skip(i));
        assert(b.drop_first().skip(i - 1) =~= b.skip(i));
    } else {
        assert(a.skip(0) =~= a);
        assert(b.skip(0) =~= b);
    }
}

/// Whether text `a` comes before text `b`.
fn chars_less(a: &Vec<char>, b: &Vec<char>) -> (r: bool)
    ensures
        r == chars_lt(a@, b@),
{
    let mut i: usize = 0;
    while i < a.len() && i < b.len() && a[i] == b[i]
        invariant
            i <= a@.len(),
            i <= b@.len(),
            a@.take(i as int) == b@.take(i as int),
        decreases a@.len() - i,
    {
        assert(a@.take(i + 1) =~= a@.take(i as int).push(a@[i as int]));
        assert(b@.take(i + 1) =~= b@.take(i as int).push(b@[i as int]));
        i = i + 1;
    }
    proof {
        lemma_chars_lt_skip(a@, b@, i as int);
    }
    if i == a.len() {
        i < b.len()
    } else if i == b.len() {
        false
    } else {
        assert(a@.skip(i as int)[0] == a@[i as int]);
        assert(b@.skip(i as int)[0] == b@[i as int]);
        a[i] < b[i]
    }
}

/// Whether two texts are the same.
fn chars_same(a: &Vec<char>, b: &Vec<char>) -> (r: bool)
    ensures
        r == (a@ == b@),
{
    if a.len() != b.len() {
        return false;
    }
    let mut i: usize = 0;
    while i < a.len()
        invariant
            a@.len() == b@.len(),
            i <= a@.len(),
            forall|k: int| 0 <= k < i ==> a@[k] == b@[k],
        decreases a@.len() - i,
    {
        if a[i] != b[i] {
            return false;
        }
        i = i + 1;
    }
    assert(a@ =~= b@);
    true
}

/// Compares two components: whether they are the same, and whether the first comes first.
fn compare_components(a: &Component, b: &Component) -> (r: (bool, bool))
    ensures
        r.0 == (component_view(*a) == component_view(*b)),
        r.1 == component_lt(component_view(*a), component_view(*b)),
{
    match (a, b) {
        (Component::Normal(x), Component::Normal(y)) => (chars_same(x, y), chars_less(x, y)),
        (Component::RootDir, Component::RootDir) => (true, false),
        (Component::CurDir, Component::CurDir) => (true, false),
        (Component::ParentDir, Component::ParentDir) => (true, false),
        _ => {
            let ra: u8 = match a {
                Component::RootDir => 0,
                Component::CurDir => 1,
                Component::ParentDir => 2,
                Component::Normal(_) => 3,
            };
            let rb: u8 = match b {
                Component::RootDir => 0,
                Component::CurDir => 1,
                Component::ParentDir => 2,
                Component::Normal(_) => 3,
            };
            (false, ra < rb)
        },
    }
}

proof fn lemma_components_lt_skip(a: Seq<ComponentView>, b: Seq<ComponentView>, i: int)
    requires
        0 <= i <= a.len(),
        i <= b.len(),
        a.take(i) == b.take(i),
    ensures
        components_lt(a, b) == components_lt(a.skip(i), b.skip(i)),
    decreases i,
{
    if i > 0 {
        assert(a[0] == a.take(i)[0]);
        assert(b[0] == b.take(i)[0]);
        assert(a.drop_first().take(i - 1) =~= a.take(i).drop_first());
        assert(b.drop_first().take(i - 1) =~= b.take(i).drop_first());
        lemma_components_lt_skip(a.drop_first(), b.drop_first(), i - 1);
        assert(a.drop_first().skip(i - 1) =~= a.skip(i));
        assert(b.drop_first().skip(i - 1) =~= b.skip(i));
    } else {
        assert(a.skip(0) =~= a);
        assert(b.skip(0) =~= b);
    }
}

/// Whether the components `a` come before the components `b`.
fn components_less(a: &Vec<Component>, b: &Vec<Component>) -> (r: bool)
    ensures
        r == components_lt(components_view(a@), components_view(b@)),
{
    let ghost av = components_view(a@);
    let ghost bv = components_view(b@);
    let mut i: usize = 0;
    while i < a.len() && i < b.len()
        invariant
            av == components_view(a@),
            bv == components_view(b@),
            i <= a@.len(),
            i <= b@.len(),
            av.take(i as int) == bv.take(i as int),
        decreases a@.len() - i,
    {
        let (same, less) = compare_components(&a[i], &b[i]);
        if !same {
            proof {
                lemma_components_lt_skip(av, bv, i as int);
                assert(av.skip(i as int)[0] == av[i as int]);
                assert(bv.skip(i as int)[0] == bv[i as int]);
            }
            return less;
        }
        assert(av.take(i + 1) =~= av.take(i as int).push(av[i as int]));
        assert(bv.take(i + 1) =~= bv.take(i as int).push(bv[i as int]));
        i = i + 1;
    }
    proof {
        lemma_components_lt_skip(av, bv, i as int);
    }
    i == a.len() && i < b.len()
}

/// Whether path `a` comes before path `b`.
pub fn path_less(a: &str, b: &str) -> (r: bool)
    ensures
        r == path_lt(a@, b@),
{
    let x = components_of(a);
    let y = components_of(b);
    components_less(&x, &y)
}

} // verus!
