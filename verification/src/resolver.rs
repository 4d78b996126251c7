//! The module source resolver: an ordered list of loader strategies, tried in
//! registration order. The first strategy whose predicate claims an identifier
//! decides the outcome alone — there is no fallback to a later strategy. A
//! filesystem strategy only ever plans a read below its configured root; a
//! network strategy rejects unencrypted transport (when configured
//! secure-only) and hosts outside its allow-set before any fetch is planned.
//! Resolution never executes anything: it returns a fetch plan or an error.

use vstd::prelude::*;
use crate::errors::ResolveError;

verus! {

/// One loader strategy, as configured at startup (immutable thereafter).
pub enum LoaderStrategy {
    /// Serves `file://` identifiers from below a root directory.
    FileSystem { root: Vec<u8> },
    /// Serves `http://` / `https://` identifiers, restricted to an explicit
    /// allow-set of hosts and, when `secure_only`, to encrypted transport.
    Network { secure_only: bool, allowed_hosts: Vec<Vec<u8>> },
}

/// Mathematical model of a fetch plan.
pub enum PlanModel {
    ReadFile(Seq<u8>),
    HttpGet(Seq<u8>),
}

/// What the claiming strategy would fetch. The resolver itself performs no
/// I/O: the caller carries the plan out and hands the bytes back.
#[derive(Debug)]
pub enum FetchPlan {
    /// Read this path (the strategy root joined with the relative part).
    ReadFile { path: Vec<u8> },
    /// Fetch this URL over the network.
    HttpGet { url: Vec<u8> },
}

impl View for FetchPlan {
    type V = PlanModel;

    open spec fn view(&self) -> PlanModel {
        match self {
            FetchPlan::ReadFile { path } => PlanModel::ReadFile(path@),
            FetchPlan::HttpGet { url } => PlanModel::HttpGet(url@),
        }
    }
}

/// The source dialect a module declares, and the dialect the preprocessing
/// pipeline targets.
#[derive(Clone, Copy, Debug, PartialEq, Eq, Structural)]
pub enum Dialect {
    TypeScript,
    Es2015,
    Es2020,
}


/// `p` is a prefix of `s`.
pub open spec fn is_prefix_of(p: Seq<u8>, s: Seq<u8>) -> bool {
    p.len() <= s.len() && s.subrange(0, p.len() as int) == p
}

/// The bytes of `file://`.
pub open spec fn spec_file_scheme() -> Seq<u8> {
    seq!['f' as u8, 'i' as u8, 'l' as u8, 'e' as u8, ':' as u8, '/' as u8, '/' as u8]
}

/// The bytes of `http://`.
pub open spec fn spec_http_scheme() -> Seq<u8> {
    seq!['h' as u8, 't' as u8, 't' as u8, 'p' as u8, ':' as u8, '/' as u8, '/' as u8]
}

/// The bytes of `https://`.
pub open spec fn spec_https_scheme() -> Seq<u8> {
    seq!['h' as u8, 't' as u8, 't' as u8, 'p' as u8, 's' as u8, ':' as u8, '/' as u8, '/' as u8]
}

/// Which identifiers a strategy claims, by scheme alone.
pub open spec fn claims(st: LoaderStrategy, id: Seq<u8>) -> bool {
    match st {
        LoaderStrategy::FileSystem { .. } => is_prefix_of(spec_file_scheme(), id),
        LoaderStrategy::Network { .. } => is_prefix_of(spec_http_scheme(), id)
            || is_prefix_of(spec_https_scheme(), id),
    }
}

/// A `..` path segment stands at position `i` of `rel`.
pub open spec fn dotdot_at(rel: Seq<u8>, i: int) -> bool {
    &&& 0 <= i
    &&& i + 2 <= rel.len()
    &&& rel[i] == '.' as u8
    &&& rel[i + 1] == '.' as u8
    &&& (i == 0 || rel[i - 1] == '/' as u8)
    &&& (i + 2 == rel.len() || rel[i + 2] == '/' as u8)
}

/// `rel` contains a `..` path segment somewhere.
pub open spec fn has_dotdot(rel: Seq<u8>) -> bool {
    exists|i: int| dotdot_at(rel, i)
}

/// The relative part of a filesystem identifier escapes the configured root:
/// it is empty, absolute, or walks upward through a `..` segment.
pub open spec fn fs_escapes_root(rel: Seq<u8>) -> bool {
    rel.len() == 0 || rel[0] == '/' as u8 || has_dotdot(rel)
}

/// The path a filesystem strategy reads: root, a separator, the relative part.
pub open spec fn joined_path(root: Seq<u8>, rel: Seq<u8>) -> Seq<u8> {
    root + seq!['/' as u8] + rel
}

/// The identifier's transport is encrypted.
pub open spec fn is_encrypted(id: Seq<u8>) -> bool {
    is_prefix_of(spec_https_scheme(), id)
}

/// Length of the scheme prefix of a network identifier.
pub open spec fn scheme_len(id: Seq<u8>) -> int {
    if is_prefix_of(spec_https_scheme(), id) {
        8
    } else {
        7
    }
}

/// First index at or after `i` holding `/` or `:`, or the end of `id`.
pub open spec fn host_span(id: Seq<u8>, i: int) -> int
    decreases id.len() - i,
{
    if i < 0 || i >= id.len() {
        i
    } else if id[i] == '/' as u8 || id[i] == ':' as u8 {
        i
    } else {
        host_span(id, i + 1)
    }
}

/// The host component of a network identifier: the bytes between the scheme
/// and the first `/` or `:` that follows it.
pub open spec fn host_of(id: Seq<u8>) -> Seq<u8> {
    id.subrange(scheme_len(id), host_span(id, scheme_len(id)))
}

/// `h` is one of the configured hosts.
pub open spec fn host_allowed(hosts: Seq<Vec<u8>>, h: Seq<u8>) -> bool {
    exists|i: int| 0 <= i < hosts.len() && hosts[i]@ == h
}

/// What one claiming strategy decides for an identifier it claims.
pub open spec fn apply_strategy(st: LoaderStrategy, id: Seq<u8>) -> Result<PlanModel, ResolveError> {
    match st {
        LoaderStrategy::FileSystem { root } => {
            if fs_escapes_root(id.skip(7)) {
                Result::Err(ResolveError::PolicyRejected)
            } else {
                Result::Ok(PlanModel::ReadFile(joined_path(root@, id.skip(7))))
            }
        },
        LoaderStrategy::Network { secure_only, allowed_hosts } => {
            if secure_only && !is_encrypted(id) {
                Result::Err(ResolveError::PolicyRejected)
            } else if !host_allowed(allowed_hosts@, host_of(id)) {
                Result::Err(ResolveError::PolicyRejected)
            } else {
                Result::Ok(PlanModel::HttpGet(id))
            }
        },
    }
}

/// The resolver's full behaviour: the first claiming strategy decides; no
/// strategy claiming the identifier is `NoLoaderMatched`.
pub open spec fn resolve_model(strats: Seq<LoaderStrategy>, id: Seq<u8>) -> Result<
    PlanModel,
    ResolveError,
>
    decreases strats.len(),
{
    if strats.len() == 0 {
        Result::Err(ResolveError::NoLoaderMatched)
    } else if claims(strats[0], id) {
        apply_strategy(strats[0], id)
    } else {
        resolve_model(strats.skip(1), id)
    }
}

/// The model of an executable resolution result.
pub open spec fn plan_result_model(r: Result<FetchPlan, ResolveError>) -> Result<
    PlanModel,
    ResolveError,
> {
    match r {
        Result::Ok(p) => Result::Ok(p@),
        Result::Err(e) => Result::Err(e),
    }
}

/// The ordered list of loader strategies, fixed at startup.
pub struct Resolver {
    pub strategies: Vec<LoaderStrategy>,
}

impl Resolver {
    /// A resolver with no strategies: it resolves nothing.
    pub fn new() -> (r: Resolver)
        ensures
            r.strategies@.len() == 0,
    {
        Resolver { strategies: Vec::new() }
    }

    /// Registers one more strategy, after all already registered ones.
    pub fn add_strategy(&mut self, st: LoaderStrategy)
        ensures
            final(self).strategies@ == old(self).strategies@.push(st),
    {
        self.strategies.push(st);
    }

    /// Decides, for one identifier, which strategy claims it and what that
    /// strategy would fetch — exactly the resolution model, with no side
    /// effect at all.
    pub fn resolve(&self, id: &Vec<u8>) -> (r: Result<FetchPlan, ResolveError>)
        ensures
            plan_result_model(r) == resolve_model(self.strategies@, id@),
    {
        let n = self.strategies.len();
        let mut i: usize = 0;
        proof {
            assert(self.strategies@.skip(0) =~= self.strategies@);
        }
        while i < n
            invariant
                n == self.strategies@.len(),
                0 <= i <= n,
                resolve_model(self.strategies@, id@) == resolve_model(
                    self.strategies@.skip(i as int),
                    id@,
                ),
            decreases n - i,
        {
            let claimed = strategy_claims(&self.strategies[i], id);
            proof {
                assert(self.strategies@.skip(i as int)[0] == self.strategies@[i as int]);
                assert(self.strategies@.skip(i as int).skip(1) =~= self.strategies@.skip(
                    i as int + 1,
                ));
            }
            if claimed {
                return apply_strategy_exec(&self.strategies[i], id);
            }
            i = i + 1;
        }
        proof {
            assert(self.strategies@.skip(n as int) =~= Seq::<LoaderStrategy>::empty());
        }
        Result::Err(ResolveError::NoLoaderMatched)
    }
}

/// Whether `p` is a prefix of `s`, decided byte by byte.
fn starts_with_bytes(s: &Vec<u8>, p: &[u8]) -> (b: bool)
    ensures
        b == is_prefix_of(p@, s@),
{
    if s.len() < p.len() {
        return false;
    }
    let mut i: usize = 0;
    while i < p.len()
        invariant
            p@.len() <= s@.len(),
            0 <= i <= p@.len(),
            forall|j: int| 0 <= j < i ==> s@[j] == p@[j],
        decreases p@.len() - i,
    {
        if s[i] != p[i] {
            proof {
                assert(s@.subrange(0, p@.len() as int)[i as int] == s@[i as int]);
            }
            return false;
        }
        i = i + 1;
    }
    proof {
        assert(s@.subrange(0, p@.len() as int) =~= p@);
    }
    true
}

/// The claim predicate of one strategy.
fn strategy_claims(st: &LoaderStrategy, id: &Vec<u8>) -> (b: bool)
    ensures
        b == claims(*st, id@),
{
    let file_scheme: [u8; 7] = [
        'f' as u8,
        'i' as u8,
        'l' as u8,
        'e' as u8,
        ':' as u8,
        '/' as u8,
        '/' as u8,
    ];
    let http_scheme: [u8; 7] = [
        'h' as u8,
        't' as u8,
        't' as u8,
        'p' as u8,
        ':' as u8,
        '/' as u8,
        '/' as u8,
    ];
    let https_scheme: [u8; 8] = [
        'h' as u8,
        't' as u8,
        't' as u8,
        'p' as u8,
        's' as u8,
        ':' as u8,
        '/' as u8,
        '/' as u8,
    ];
    proof {
        assert(file_scheme@ =~= spec_file_scheme());
        assert(http_scheme@ =~= spec_http_scheme());
        assert(https_scheme@ =~= spec_https_scheme());
    }
    match st {
        LoaderStrategy::FileSystem { .. } => starts_with_bytes(id, file_scheme.as_slice()),
        LoaderStrategy::Network { .. } => {
            starts_with_bytes(id, http_scheme.as_slice()) || starts_with_bytes(
                id,
                https_scheme.as_slice(),
            )
        },
    }
}

/// Copies the bytes of `s` from position `k` on.
fn tail_from(s: &Vec<u8>, k: usize) -> (r: Vec<u8>)
    requires
        k <= s@.len(),
    ensures
        r@ == s@.skip(k as int),
{
    let mut r: Vec<u8> = Vec::new();
    let mut i: usize = k;
    while i < s.len()
        invariant
            k <= i <= s@.len(),
            r@ =~= s@.subrange(k as int, i as int),
        decreases s@.len() - i,
    {
        r.push(s[i]);
        i = i + 1;
    }
    proof {
        assert(r@ =~= s@.skip(k as int));
    }
    r
}

/// Whether `rel` holds a `..` path segment.
fn has_dotdot_exec(rel: &Vec<u8>) -> (b: bool)
    ensures
        b == has_dotdot(rel@),
{
    let n = rel.len();
    let mut i: usize = 0;
    while i < n
        invariant
            n == rel@.len(),
            0 <= i <= n,
            forall|j: int| j < i ==> !dotdot_at(rel@, j),
        decreases n - i,
    {
        if n - i >= 2 && rel[i] == '.' as u8 && rel[i + 1] == '.' as u8 && (i == 0 || rel[i - 1]
            == '/' as u8) && (n - i == 2 || rel[i + 2] == '/' as u8) {
            proof {
                assert(dotdot_at(rel@, i as int));
            }
            return true;
        }
        i = i + 1;
    }
    proof {
        assert(forall|j: int| dotdot_at(rel@, j) ==> 0 <= j && j < n);
    }
    false
}

/// Builds the path below `root` that a filesystem strategy would read.
fn join_path(root: &Vec<u8>, rel: &Vec<u8>) -> (r: Vec<u8>)
    ensures
        r@ == joined_path(root@, rel@),
{
    let mut r: Vec<u8> = Vec::new();
    let mut i: usize = 0;
    while i < root.len()
        invariant
            0 <= i <= root@.len(),
            r@ =~= root@.subrange(0, i as int),
        decreases root@.len() - i,
    {
        r.push(root[i]);
        i = i + 1;
    }
    r.push('/' as u8);
    let mut j: usize = 0;
    while j < rel.len()
        invariant
            0 <= j <= rel@.len(),
            r@ =~= root@ + seq!['/' as u8] + rel@.subrange(0, j as int),
        decreases rel@.len() - j,
    {
        r.push(rel[j]);
        j = j + 1;
    }
    proof {
        assert(r@ =~= joined_path(root@, rel@));
    }
    r
}

/// First index at or after `start` holding `/` or `:`, or the end of `id`.
fn find_host_end(id: &Vec<u8>, start: usize) -> (e: usize)
    requires
        start <= id@.len(),
    ensures
        e == host_span(id@, start as int),
{
    let mut i: usize = start;
    while i < id.len()
        invariant
            start <= i <= id@.len(),
            host_span(id@, start as int) == host_span(id@, i as int),
        decreases id@.len() - i,
    {
        if id[i] == '/' as u8 || id[i] == ':' as u8 {
            return i;
        }
        i = i + 1;
    }
    i
}

/// Whether the bytes of `id` between `start` and `end` equal `h`.
fn span_equals(id: &Vec<u8>, start: usize, end: usize, h: &Vec<u8>) -> (b: bool)
    requires
        start <= end <= id@.len(),
    ensures
        b == (id@.subrange(start as int, end as int) == h@),
{
    if end - start != h.len() {
        proof {
            assert(id@.subrange(start as int, end as int).len() == end - start);
        }
        return false;
    }
    let mut i: usize = 0;
    while i < h.len()
        invariant
            start <= end <= id@.len(),
            end - start == h@.len(),
            0 <= i <= h@.len(),
            forall|j: int| 0 <= j < i ==> id@[start + j] == h@[j],
        decreases h@.len() - i,
    {
        if id[start + i] != h[i] {
            proof {
                assert(id@.subrange(start as int, end as int)[i as int] == id@[start + i]);
            }
            return false;
        }
        i = i + 1;
    }
    proof {
        assert(id@.subrange(start as int, end as int) =~= h@);
    }
    true
}

/// Whether the host of a network identifier stands in the allow-set.
fn host_in_set(id: &Vec<u8>, start: usize, end: usize, hosts: &Vec<Vec<u8>>) -> (b: bool)
    requires
        start <= end <= id@.len(),
        id@.subrange(start as int, end as int) == host_of(id@),
    ensures
        b == host_allowed(hosts@, host_of(id@)),
{
    let mut i: usize = 0;
    while i < hosts.len()
        invariant
            start <= end <= id@.len(),
            id@.subrange(start as int, end as int) == host_of(id@),
            0 <= i <= hosts@.len(),
            forall|j: int| 0 <= j < i ==> hosts@[j]@ != host_of(id@),
        decreases hosts@.len() - i,
    {
        if span_equals(id, start, end, &hosts[i]) {
            return true;
        }
        i = i + 1;
    }
    false
}

/// Carries out the decision of one claiming strategy.
fn apply_strategy_exec(st: &LoaderStrategy, id: &Vec<u8>) -> (r: Result<FetchPlan, ResolveError>)
    requires
        claims(*st, id@),
    ensures
        plan_result_model(r) == apply_strategy(*st, id@),
{
    match st {
        LoaderStrategy::FileSystem { root } => {
            let rel = tail_from(id, 7);
            if rel.len() == 0 || rel[0] == '/' as u8 || has_dotdot_exec(&rel) {
                Result::Err(ResolveError::PolicyRejected)
            } else {
                Result::Ok(FetchPlan::ReadFile { path: join_path(root, &rel) })
            }
        },
        LoaderStrategy::Network { secure_only, allowed_hosts } => {
            let https_scheme: [u8; 8] = [
                'h' as u8,
                't' as u8,
                't' as u8,
                'p' as u8,
                's' as u8,
                ':' as u8,
                '/' as u8,
                '/' as u8,
            ];
            proof {
                assert(https_scheme@ =~= spec_https_scheme());
            }
            let encrypted = starts_with_bytes(id, https_scheme.as_slice());
            if *secure_only && !encrypted {
                return Result::Err(ResolveError::PolicyRejected);
            }
            let start: usize = if encrypted {
                8
            } else {
                7
            };
            let end = find_host_end(id, start);
            proof {
                lemma_host_span_bounds(id@, start as int);
                assert(id@.subrange(start as int, end as int) == host_of(id@));
            }
            if host_in_set(id, start, end, allowed_hosts) {
                Result::Ok(FetchPlan::HttpGet { url: clone_bytes(id) })
            } else {
                Result::Err(ResolveError::PolicyRejected)
            }
        },
    }
}

/// A byte-for-byte copy.
fn clone_bytes(s: &Vec<u8>) -> (r: Vec<u8>)
    ensures
        r@ == s@,
{
    let mut r: Vec<u8> = Vec::new();
    let mut i: usize = 0;
    while i < s.len()
        invariant
            0 <= i <= s@.len(),
            r@ =~= s@.subrange(0, i as int),
        decreases s@.len() - i,
    {
        r.push(s[i]);
        i = i + 1;
    }
    proof {
        assert(r@ =~= s@);
    }
    r
}

/// A prefix fixes the identifier's bytes over its whole length.
pub proof fn lemma_prefix_byte(p: Seq<u8>, id: Seq<u8>, k: int)
    requires
        is_prefix_of(p, id),
        0 <= k < p.len(),
    ensures
        id[k] == p[k],
{
    assert(id.subrange(0, p.len() as int)[k] == id[k]);
}

/// A filesystem identifier pointing outside the configured root never yields
/// a fetch plan, whatever the configured strategy list: resolution fails
/// before any read is attempted.
pub proof fn law_escaping_path_rejected(strats: Seq<LoaderStrategy>, id: Seq<u8>)
    requires
        is_prefix_of(spec_file_scheme(), id),
        fs_escapes_root(id.skip(7)),
    ensures
        !(resolve_model(strats, id) is Ok),
    decreases strats.len(),
{
    if strats.len() > 0 {
        if claims(strats[0], id) {
            match strats[0] {
                LoaderStrategy::FileSystem { .. } => {},
                LoaderStrategy::Network { .. } => {
                    lemma_prefix_byte(spec_file_scheme(), id, 0);
                    if is_prefix_of(spec_http_scheme(), id) {
                        lemma_prefix_byte(spec_http_scheme(), id, 0);
                    } else {
                        lemma_prefix_byte(spec_https_scheme(), id, 0);
                    }
                },
            }
        } else {
            law_escaping_path_rejected(strats.skip(1), id);
        }
    }
}

/// A network identifier over unencrypted transport never yields a fetch plan
/// when every configured network strategy demands encrypted transport:
/// resolution fails before any fetch is attempted.
pub proof fn law_unencrypted_rejected(strats: Seq<LoaderStrategy>, id: Seq<u8>)
    requires
        is_prefix_of(spec_http_scheme(), id),
        forall|i: int|
            0 <= i < strats.len() ==> ((#[trigger] strats[i]) matches LoaderStrategy::Network {
                secure_only,
                ..
            } ==> secure_only),
    ensures
        !(resolve_model(strats, id) is Ok),
    decreases strats.len(),
{
    if strats.len() > 0 {
        if claims(strats[0], id) {
            match strats[0] {
                LoaderStrategy::FileSystem { .. } => {
                    lemma_prefix_byte(spec_http_scheme(), id, 0);
                    lemma_prefix_byte(spec_file_scheme(), id, 0);
                },
                LoaderStrategy::Network { .. } => {
                    if is_encrypted(id) {
                        lemma_prefix_byte(spec_http_scheme(), id, 4);
                        lemma_prefix_byte(spec_https_scheme(), id, 4);
                    }
                    assert(strats[0] matches LoaderStrategy::Network { secure_only, .. }
                        ==> secure_only);
                },
            }
        } else {
            law_unencrypted_rejected(strats.skip(1), id);
        }
    }
}

/// A network identifier whose host stands in no configured allow-set never
/// yields a fetch plan: resolution fails before any fetch is attempted.
pub proof fn law_disallowed_host_rejected(strats: Seq<LoaderStrategy>, id: Seq<u8>)
    requires
        is_prefix_of(spec_http_scheme(), id) || is_prefix_of(spec_https_scheme(), id),
        forall|i: int|
            0 <= i < strats.len() ==> ((#[trigger] strats[i]) matches LoaderStrategy::Network {
                allowed_hosts,
                ..
            } ==> !host_allowed(allowed_hosts@, host_of(id))),
    ensures
        !(resolve_model(strats, id) is Ok),
    decreases strats.len(),
{
    if strats.len() > 0 {
        if claims(strats[0], id) {
            match strats[0] {
                LoaderStrategy::FileSystem { .. } => {
                    lemma_prefix_byte(spec_file_scheme(), id, 0);
                    if is_prefix_of(spec_http_scheme(), id) {
                        lemma_prefix_byte(spec_http_scheme(), id, 0);
                    } else {
                        lemma_prefix_byte(spec_https_scheme(), id, 0);
                    }
                },
                LoaderStrategy::Network { .. } => {
                    assert(strats[0] matches LoaderStrategy::Network { allowed_hosts, .. }
                        ==> !host_allowed(allowed_hosts@, host_of(id)));
                },
            }
        } else {
            law_disallowed_host_rejected(strats.skip(1), id);
        }
    }
}

/// `host_span` stays between its start and the end of the identifier.
pub proof fn lemma_host_span_bounds(id: Seq<u8>, i: int)
    requires
        0 <= i <= id.len(),
    ensures
        i <= host_span(id, i) <= id.len(),
    decreases id.len() - i,
{
    if i < id.len() && !(id[i] == '/' as u8 || id[i] == ':' as u8) {
        lemma_host_span_bounds(id, i + 1);
    }
}

} // verus!
