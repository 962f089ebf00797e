//! Identity and composition of functions, stated and proved as contracts.
//!
//! Three combinators make up the library: [`id`], which returns its input
//! unchanged; [`compose`], which turns two unary functions into one that
//! applies them in sequence; and [`unit`], which maps any value to `()`.
//!
//! The categorical laws the combinators obey are stated as public proof
//! functions: the identity function is a two-sided unit of composition
//! ([`lemma_compose_id_left`], [`lemma_compose_id_right`]), composition is
//! associative ([`lemma_compose_assoc`]), and a composite of deterministic
//! functions is deterministic ([`lemma_composite_deterministic`]).

use vstd::prelude::*;

verus! {

/// Holds when `h` behaves as the composition "`f` then `g`": every value
/// `h` can return for an input `x` is one the chain `g(f(x))` can produce.
///
/// This is the relation that [`compose`] establishes between its result
/// and its two arguments.
pub open spec fn composite_of<F, G, H, A, B, C>(h: H, f: F, g: G) -> bool
    where
        F: Fn(A) -> B,
        G: Fn(B) -> C,
        H: Fn(A) -> C,
{
    forall|x: A, r: C| #[trigger] call_ensures(h, (x,), r)
        ==> exists|y: B| call_ensures(f, (x,), y) && call_ensures(g, (y,), r)
}

/// Holds when `h` accepts every input that the chain "`f` then `g`" is known
/// to accept: `f` accepts it, and `g` accepts whatever `f` may make of it.
pub open spec fn accepts_chain_inputs<F, G, H, A, B, C>(h: H, f: F, g: G) -> bool
    where
        F: Fn(A) -> B,
        G: Fn(B) -> C,
        H: Fn(A) -> C,
{
    forall|x: A|
        call_requires(f, (x,)) && (forall|y: B| call_ensures(f, (x,), y)
            ==> call_requires(g, (y,))) ==> #[trigger] call_requires(h, (x,))
}

/// Holds when `f` relates each input to at most one output: calling it twice
/// on the same input cannot yield two different results.
pub open spec fn deterministic<F, A, B>(f: F) -> bool
    where
        F: Fn(A) -> B,
{
    forall|x: A, r1: B, r2: B|
        #[trigger] call_ensures(f, (x,), r1) && #[trigger] call_ensures(f, (x,), r2) ==> r1 == r2
}

/// Returns its argument unchanged, for a value of any type.
///
/// The identity function is the two-sided unit of [`compose`]: see
/// [`lemma_compose_id_left`] and [`lemma_compose_id_right`].
pub fn id<T>(x: T) -> (r: T)
    ensures
        r == x,
{
    x
}

/// Composes two unary functions into one: the result applies `f` first,
/// then `g` ("`g` after `f`").
///
/// The returned function accepts every input on which the chain is known
/// to be safe, and every value it returns is one that the chain `g(f(x))`
/// can produce. Composition itself has no effect: `f` and `g` run only
/// when the returned function is called, `f` before `g`.
pub fn compose<F, G, Fv, Gv, V>(f: F, g: G) -> (h: impl Fn(Fv) -> V)
    where
        F: Fn(Fv) -> Gv,
        G: Fn(Gv) -> V,
    ensures
        accepts_chain_inputs(h, f, g),
        composite_of(h, f, g),
{
    let fs: Ghost<F> = Ghost(f);
    let gs: Ghost<G> = Ghost(g);
    let c = move |x: Fv| -> (r: V)
        requires
            call_requires(fs@, (x,)),
            forall|y: Gv| call_ensures(fs@, (x,), y) ==> call_requires(gs@, (y,)),
        ensures
            exists|y: Gv| call_ensures(fs@, (x,), y) && call_ensures(gs@, (y,), r),
        {
            g(f(x))
        };
    c
}

/// Discards its argument and returns the unit value, for a value of any type.
///
/// Every type has exactly one observable map into `()`; this function
/// realises it. Any two applications, whatever their argument types,
/// return equal results.
pub fn unit<T>(_t: T) -> (r: ())
    ensures
        r == (),
{
    ()
}

/// Left identity law: a composite of [`id`] before `f` behaves as `f`.
///
/// If `h` is related to `id` and `f` as [`compose`]`(id, f)` promises its
/// result to be, then `h` accepts every input that `f` accepts, and every
/// value `h` can return is one that `f` can return for the same input.
/// When `f` is deterministic — the library treats its operands as pure
/// functions — `h` and `f` agree on every input.
pub proof fn lemma_compose_id_left<F, H, A, B>(f: F, h: H)
    where
        F: Fn(A) -> B,
        H: Fn(A) -> B,
    requires
        accepts_chain_inputs(h, id::<A>, f),
        composite_of(h, id::<A>, f),
    ensures
        forall|x: A| call_requires(f, (x,)) ==> #[trigger] call_requires(h, (x,)),
        forall|x: A, r: B| #[trigger] call_ensures(h, (x,), r) ==> call_ensures(f, (x,), r),
        deterministic(f) ==> forall|x: A, r: B, rf: B|
            #[trigger] call_ensures(h, (x,), r) && #[trigger] call_ensures(f, (x,), rf)
                ==> r == rf,
{
}

/// Right identity law: a composite of `f` before [`id`] behaves as `f`.
///
/// If `h` is related to `f` and `id` as [`compose`]`(f, id)` promises its
/// result to be, then `h` accepts every input that `f` accepts, and every
/// value `h` can return is one that `f` can return for the same input.
/// When `f` is deterministic — the library treats its operands as pure
/// functions — `h` and `f` agree on every input.
pub proof fn lemma_compose_id_right<F, H, A, B>(f: F, h: H)
    where
        F: Fn(A) -> B,
        H: Fn(A) -> B,
    requires
        accepts_chain_inputs(h, f, id::<B>),
        composite_of(h, f, id::<B>),
    ensures
        forall|x: A| call_requires(f, (x,)) ==> #[trigger] call_requires(h, (x,)),
        forall|x: A, r: B| #[trigger] call_ensures(h, (x,), r) ==> call_ensures(f, (x,), r),
        deterministic(f) ==> forall|x: A, r: B, rf: B|
            #[trigger] call_ensures(h, (x,), r) && #[trigger] call_ensures(f, (x,), rf)
                ==> r == rf,
{
}

/// Associativity law: composing "(`f` then `g`) then `k`" and composing
/// "`f` then (`g` then `k`)" give functions with the same behaviour.
///
/// `hl` stands for the left-nested composite, built through the
/// intermediate composite `fg` of `f` and `g`; `hr` stands for the
/// right-nested one, built through the intermediate composite `gk` of `g`
/// and `k`. Each relates its inputs to outputs exactly as the three-step
/// chain `k(g(f(x)))` allows, so when `f`, `g` and `k` are deterministic —
/// the library treats its operands as pure functions — the two nestings
/// agree on every input.
pub proof fn lemma_compose_assoc<F, G, K, FG, GK, HL, HR, A, B, C, D>(
    f: F,
    g: G,
    k: K,
    fg: FG,
    gk: GK,
    hl: HL,
    hr: HR,
)
    where
        F: Fn(A) -> B,
        G: Fn(B) -> C,
        K: Fn(C) -> D,
        FG: Fn(A) -> C,
        GK: Fn(B) -> D,
        HL: Fn(A) -> D,
        HR: Fn(A) -> D,
    requires
        composite_of(fg, f, g),
        composite_of(gk, g, k),
        composite_of(hl, fg, k),
        composite_of(hr, f, gk),
    ensures
        forall|x: A, r: D| #[trigger] call_ensures(hl, (x,), r)
            ==> exists|y: B, z: C|
                call_ensures(f, (x,), y) && call_ensures(g, (y,), z) && call_ensures(k, (z,), r),
        forall|x: A, r: D| #[trigger] call_ensures(hr, (x,), r)
            ==> exists|y: B, z: C|
                call_ensures(f, (x,), y) && call_ensures(g, (y,), z) && call_ensures(k, (z,), r),
        deterministic(f) && deterministic(g) && deterministic(k)
            ==> forall|x: A, r1: D, r2: D|
                #[trigger] call_ensures(hl, (x,), r1) && #[trigger] call_ensures(hr, (x,), r2)
                    ==> r1 == r2,
{
}

/// Purity of repeated invocation: a composite of two deterministic
/// functions is deterministic, so calling it twice on the same input
/// yields the same output both times.
pub proof fn lemma_composite_deterministic<F, G, H, A, B, C>(f: F, g: G, h: H)
    where
        F: Fn(A) -> B,
        G: Fn(B) -> C,
        H: Fn(A) -> C,
    requires
        composite_of(h, f, g),
        deterministic(f),
        deterministic(g),
    ensures
        deterministic(h),
{
}

} // verus!
