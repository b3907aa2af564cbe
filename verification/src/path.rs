//! Wire-path derivation: the canonical string that names a method on the wire.

use vstd::prelude::*;

verus! {

/// The canonical wire path of a method: one leading slash, the package and
/// the service name joined by a dot, then a slash and the method name.
pub open spec fn path_spec(package: Seq<char>, service: Seq<char>, method: Seq<char>) -> Seq<char> {
    seq!['/'] + package + seq!['.'] + service + seq!['/'] + method
}

/// Derives the wire path `/<package>.<service>/<method>`.
///
/// Pure and total: the result is a function of the three arguments alone,
/// with no error conditions and no side effects.
pub fn build_path(package: &str, service: &str, method: &str) -> (r: String)
    ensures
        r@ == path_spec(package@, service@, method@),
{
    let mut r = String::from_str("/");
    r.append(package);
    r.append(".");
    r.append(service);
    r.append("/");
    r.append(method);
    proof {
        reveal_strlit("/");
        reveal_strlit(".");
        assert(r@ =~= path_spec(package@, service@, method@));
    }
    r
}

/// Path derivation is referentially transparent: two derivations from
/// identical inputs yield identical paths.
pub proof fn lemma_path_deterministic(
    p1: Seq<char>,
    s1: Seq<char>,
    m1: Seq<char>,
    p2: Seq<char>,
    s2: Seq<char>,
    m2: Seq<char>,
)
    requires
        p1 == p2,
        s1 == s2,
        m1 == m2,
    ensures
        path_spec(p1, s1, m1) == path_spec(p2, s2, m2),
{
}

/// Within one service (package and service name fixed), distinct method
/// names derive distinct paths: the method name is recoverable as the
/// suffix after the shared prefix. Method names are unique within a
/// service, so paths cannot collide across its methods.
pub proof fn lemma_path_injective_in_method(
    p: Seq<char>,
    s: Seq<char>,
    m1: Seq<char>,
    m2: Seq<char>,
)
    requires
        path_spec(p, s, m1) == path_spec(p, s, m2),
    ensures
        m1 == m2,
{
    let prefix: int = 3 + p.len() as int + s.len() as int;
    assert(m1 =~= path_spec(p, s, m1).skip(prefix));
    assert(m2 =~= path_spec(p, s, m2).skip(prefix));
}

/// Whether `s` contains the character `ch`.
pub open spec fn has_char(s: Seq<char>, ch: char) -> bool {
    exists|i: int| 0 <= i < s.len() && s[i] == ch
}

/// Path derivation is injective on well-formed names: when the package
/// contains neither a dot nor a slash and the service and method names
/// contain no slash, distinct `(package, service, method)` triples derive
/// distinct paths. (Without these conditions the rule can collide: a dot
/// inside a package name cannot be told apart from the separator.)
pub proof fn lemma_path_injective(
    p1: Seq<char>,
    s1: Seq<char>,
    m1: Seq<char>,
    p2: Seq<char>,
    s2: Seq<char>,
    m2: Seq<char>,
)
    requires
        !has_char(p1, '.'),
        !has_char(p1, '/'),
        !has_char(p2, '.'),
        !has_char(p2, '/'),
        !has_char(s1, '/'),
        !has_char(s2, '/'),
        !has_char(m1, '/'),
        !has_char(m2, '/'),
        path_spec(p1, s1, m1) == path_spec(p2, s2, m2),
    ensures
        p1 == p2,
        s1 == s2,
        m1 == m2,
{
    let e = path_spec(p1, s1, m1);
    assert(e.len() == 3 + p1.len() + s1.len() + m1.len());
    assert(e.len() == 3 + p2.len() + s2.len() + m2.len());
    // the first dot stands right after the package, so the packages match
    assert(e[1 + p1.len() as int] == '.');
    assert(e[1 + p2.len() as int] == '.');
    assert(forall|j: int| 0 <= j < p1.len() ==> e[1 + j] == p1[j]);
    assert(forall|j: int| 0 <= j < p2.len() ==> e[1 + j] == p2[j]);
    if p1.len() < p2.len() {
        assert(e[1 + p1.len() as int] == p2[p1.len() as int]);
        assert(p2[p1.len() as int] != '.');
        assert(false);
    }
    if p2.len() < p1.len() {
        assert(e[1 + p2.len() as int] == p1[p2.len() as int]);
        assert(p1[p2.len() as int] != '.');
        assert(false);
    }
    assert(p1 =~= p2);
    // the last slash stands right after the service, so the services match
    let l1 = 2 + p1.len() as int + s1.len() as int;
    let l2 = 2 + p2.len() as int + s2.len() as int;
    assert(e[l1] == '/');
    assert(e[l2] == '/');
    assert(forall|j: int| 0 <= j < s1.len() ==> e[2 + p1.len() + j] == s1[j]);
    assert(forall|j: int| 0 <= j < s2.len() ==> e[2 + p2.len() + j] == s2[j]);
    assert(forall|j: int| 0 <= j < m1.len() ==> e[l1 + 1 + j] == m1[j]);
    assert(forall|j: int| 0 <= j < m2.len() ==> e[l2 + 1 + j] == m2[j]);
    if s1.len() < s2.len() {
        assert(e[l1] == s2[l1 - 2 - p2.len() as int]);
        assert(false);
    }
    if s2.len() < s1.len() {
        assert(e[l2] == s1[l2 - 2 - p1.len() as int]);
        assert(false);
    }
    assert(s1 =~= s2);
    assert(m1 =~= m2);
}

} // verus!
