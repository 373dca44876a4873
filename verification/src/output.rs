//! How parsed values are kept, dropped, chained and collected.
use core::hash::Hash;
use core::marker::PhantomData;
use std::collections::HashMap;
use vstd::prelude::*;
use vstd::relations::injective;
use vstd::std_specs::hash::{lemma_hashmap_deepview_dom, lemma_hashmap_deepview_properties, obeys_key_model};

use crate::func::{fn3_det, fn3_view, lemma_fn3_view};

verus! {

/// Marks a parser whose value is kept when it is chained.
pub struct Keep;

/// Marks a parser whose value is dropped when it is chained.
pub struct Ignore;

/// Selects how two chained values combine, by the kinds of their parsers.
pub struct ChainImpl<L, R> {
    phantom: PhantomData<(L, R)>,
}

/// The kind of a chain of two parsers, by their kinds: its value is kept
/// when either value is kept.
pub trait ChainKind {
    type NextKind;
}

impl ChainKind for ChainImpl<Keep, Keep> {
    type NextKind = Keep;
}

impl ChainKind for ChainImpl<Keep, Ignore> {
    type NextKind = Keep;
}

impl ChainKind for ChainImpl<Ignore, Keep> {
    type NextKind = Keep;
}

impl ChainKind for ChainImpl<Ignore, Ignore> {
    type NextKind = Ignore;
}

/// How the values of two chained parsers combine into one.
pub trait Chain<A: DeepView, B: DeepView>: ChainKind {
    type Output: DeepView;

    spec fn spec_chain(a: A::V, b: B::V) -> <Self::Output as DeepView>::V;

    fn chain(a: A, b: B) -> (r: Self::Output)
        ensures
            r.deep_view() == Self::spec_chain(a.deep_view(), b.deep_view()),
    ;
}

impl<A: DeepView, B: DeepView> Chain<A, B> for ChainImpl<Keep, Keep> {
    type Output = (A, B);

    open spec fn spec_chain(a: A::V, b: B::V) -> (A::V, B::V) {
        (a, b)
    }

    fn chain(a: A, b: B) -> (r: (A, B)) {
        (a, b)
    }
}

impl<A: DeepView, B: DeepView> Chain<A, B> for ChainImpl<Keep, Ignore> {
    type Output = A;

    open spec fn spec_chain(a: A::V, b: B::V) -> A::V {
        a
    }

    fn chain(a: A, _b: B) -> (r: A) {
        a
    }
}

impl<A: DeepView, B: DeepView> Chain<A, B> for ChainImpl<Ignore, Keep> {
    type Output = B;

    open spec fn spec_chain(a: A::V, b: B::V) -> B::V {
        b
    }

    fn chain(_a: A, b: B) -> (r: B) {
        b
    }
}

impl<A: DeepView, B: DeepView> Chain<A, B> for ChainImpl<Ignore, Ignore> {
    type Output = ();

    open spec fn spec_chain(a: A::V, b: B::V) -> () {
        ()
    }

    fn chain(_a: A, _b: B) -> (r: ()) {
        ()
    }
}

/// The value of an optional parser: the option itself for a kept parser, nothing for a dropped one.
pub trait OptionalOutput<T: DeepView> {
    type Output: DeepView;

    spec fn spec_convert(v: T::V) -> <Self::Output as DeepView>::V;

    fn convert(val: T) -> (r: Self::Output)
        ensures
            r.deep_view() == Self::spec_convert(val.deep_view()),
    ;
}

impl<T: DeepView> OptionalOutput<T> for Keep {
    type Output = T;

    open spec fn spec_convert(v: T::V) -> T::V {
        v
    }

    fn convert(val: T) -> (r: T) {
        val
    }
}

impl<T: DeepView> OptionalOutput<T> for Ignore {
    type Output = ();

    open spec fn spec_convert(v: T::V) -> () {
        ()
    }

    fn convert(_val: T) -> (r: ()) {
        ()
    }
}

/// Gathers the values of a repeated parser into a container.
pub trait Collector<T: DeepView> {
    type Container: DeepView;
    type Kind;

    /// What the collector needs of itself (such as a container whose
    /// insertions are known to behave as `spec_consume` says).
    spec fn wf(&self) -> bool;

    /// The container before any value is added.
    spec fn spec_init(&self) -> <Self::Container as DeepView>::V;

    /// The container after `elem` is added.
    spec fn spec_consume(
        &self,
        container: <Self::Container as DeepView>::V,
        elem: T::V,
    ) -> <Self::Container as DeepView>::V;

    fn init(&self) -> (r: Self::Container)
        ensures
            r.deep_view() == self.spec_init(),
    ;

    fn consume(&self, container: &mut Self::Container, elem: T)
        requires
            self.wf(),
        ensures
            final(container).deep_view() == self.spec_consume(
                old(container).deep_view(),
                elem.deep_view(),
            ),
    ;
}

/// A container that values can be added to.
pub trait Insert: Sized + DeepView {
    type Elem: DeepView;

    /// Adding a value is known to act on the container's view as `spec_insert` says.
    spec fn obeys_insert() -> bool;

    spec fn spec_empty() -> Self::V;

    spec fn spec_insert(container: Self::V, elem: <Self::Elem as DeepView>::V) -> Self::V;

    fn empty() -> (r: Self)
        ensures
            r.deep_view() == Self::spec_empty(),
    ;

    fn insert(&mut self, elem: Self::Elem)
        ensures
            Self::obeys_insert() ==> final(self).deep_view() == Self::spec_insert(
                old(self).deep_view(),
                elem.deep_view(),
            ),
    ;
}

impl<T: DeepView> Insert for Vec<T> {
    type Elem = T;

    open spec fn obeys_insert() -> bool {
        true
    }

    open spec fn spec_empty() -> Seq<T::V> {
        Seq::empty()
    }

    open spec fn spec_insert(container: Seq<T::V>, elem: T::V) -> Seq<T::V> {
        container.push(elem)
    }

    fn empty() -> (r: Vec<T>) {
        let r: Vec<T> = Vec::new();
        assert(r.deep_view() =~= Seq::<T::V>::empty());
        r
    }

    fn insert(&mut self, elem: T) {
        let ghost old_view = self.deep_view();
        let ghost ev = elem.deep_view();
        self.push(elem);
        assert(self.deep_view() =~= old_view.push(ev));
    }
}

impl<K: DeepView + Eq + Hash, V: DeepView> Insert for HashMap<K, V> {
    type Elem = (K, V);

    /// Keys hash and compare as the model of hash maps says, and keys with
    /// equal views are equal.
    open spec fn obeys_insert() -> bool {
        obeys_key_model::<K>() && injective(|k: K| k.deep_view())
    }

    open spec fn spec_empty() -> Map<K::V, V::V> {
        Map::empty()
    }

    open spec fn spec_insert(container: Map<K::V, V::V>, elem: (K::V, V::V)) -> Map<K::V, V::V> {
        container.insert(elem.0, elem.1)
    }

    fn empty() -> (r: HashMap<K, V>) {
        let r: HashMap<K, V> = HashMap::new();
        proof {
            lemma_hashmap_deepview_dom(r);
            assert(r.deep_view().dom() =~= Set::<K::V>::empty());
            assert(r.deep_view() =~= Map::<K::V, V::V>::empty());
        }
        r
    }

    fn insert(&mut self, elem: (K, V)) {
        let ghost old_map = *self;
        let (k, v) = elem;
        let _ = HashMap::insert(self, k, v);
        proof {
            if Self::obeys_insert() {
                let new_map = *self;
                let expected = old_map.deep_view().insert(k.deep_view(), v.deep_view());
                lemma_hashmap_deepview_properties(old_map);
                lemma_hashmap_deepview_properties(new_map);
                lemma_hashmap_deepview_dom(old_map);
                lemma_hashmap_deepview_dom(new_map);
                assert(new_map@ == old_map@.insert(k, v));
                assert forall|dk: K::V| #[trigger] new_map.deep_view().contains_key(dk) implies expected.contains_key(dk)
                    && new_map.deep_view()[dk] == expected[dk] by {
                    let k2 = choose|k2: K| k2.deep_view() == dk && #[trigger] new_map@.contains_key(k2);
                    let f = |k: K| k.deep_view();
                    if k2 != k {
                        assert(f(k2) != f(k));
                        assert(old_map@.contains_key(k2));
                        assert(new_map@[k2] == old_map@[k2]);
                        assert(old_map.deep_view()[dk] == old_map@[k2].deep_view());
                    } else {
                        assert(new_map@[k] == v);
                    }
                }
                assert forall|dk: K::V| #[trigger] expected.contains_key(dk) implies new_map.deep_view().contains_key(dk) by {
                    if dk != k.deep_view() {
                        let k2 = choose|k2: K| k2.deep_view() == dk && #[trigger] old_map@.contains_key(k2);
                        assert(new_map@.contains_key(k2));
                    } else {
                        assert(new_map@.contains_key(k));
                    }
                }
                assert(new_map.deep_view() =~= expected);
            }
        }
    }
}

/// Collects values into a container of type `C`.
pub struct Collect<C>(PhantomData<C>);

impl<C, T> Collector<T> for Collect<C> where C: Insert<Elem = T>, T: DeepView {
    type Container = C;
    type Kind = Keep;

    open spec fn wf(&self) -> bool {
        C::obeys_insert()
    }

    open spec fn spec_init(&self) -> C::V {
        C::spec_empty()
    }

    open spec fn spec_consume(&self, container: C::V, elem: T::V) -> C::V {
        C::spec_insert(container, elem)
    }

    fn init(&self) -> (r: C) {
        C::empty()
    }

    fn consume(&self, container: &mut C, elem: T) {
        container.insert(elem);
    }
}

/// A collector into a container of type `C`.
pub fn collect<C: Insert>() -> (r: Collect<C>) {
    Collect(PhantomData)
}

/// Collects values into a `Vec`.
pub struct ToVec;

impl<T: DeepView> Collector<T> for ToVec {
    type Container = Vec<T>;
    type Kind = Keep;

    open spec fn wf(&self) -> bool {
        true
    }

    open spec fn spec_init(&self) -> Seq<T::V> {
        Seq::empty()
    }

    open spec fn spec_consume(&self, container: Seq<T::V>, elem: T::V) -> Seq<T::V> {
        container.push(elem)
    }

    fn init(&self) -> (r: Vec<T>) {
        Vec::<T>::empty()
    }

    fn consume(&self, container: &mut Vec<T>, elem: T) {
        Insert::insert(container, elem);
    }
}

impl<T: DeepView> Collector<T> for Ignore {
    type Container = ();
    type Kind = Ignore;

    open spec fn wf(&self) -> bool {
        true
    }

    open spec fn spec_init(&self) -> () {
        ()
    }

    open spec fn spec_consume(&self, container: (), elem: T::V) -> () {
        ()
    }

    fn init(&self) -> (r: ()) {
        ()
    }

    fn consume(&self, _container: &mut (), _elem: T) {
    }
}

/// Gathers the values of a delimited list into a container.
pub trait DelimitedCollector<T: DeepView, D: DeepView> {
    type Container: DeepView;
    type Kind;

    /// What the collector needs of itself (such as a closure that denotes a function).
    spec fn wf(&self) -> bool;

    /// The container holding only the first element.
    spec fn spec_from(&self, elem: T::V) -> <Self::Container as DeepView>::V;

    /// The container after a delimiter and the element after it are added.
    spec fn spec_consume(
        &self,
        container: <Self::Container as DeepView>::V,
        delim: D::V,
        elem: T::V,
    ) -> <Self::Container as DeepView>::V;

    fn from(&self, elem: T) -> (r: Self::Container)
        requires
            self.wf(),
        ensures
            r.deep_view() == self.spec_from(elem.deep_view()),
    ;

    fn consume(&self, container: Self::Container, delim: D, elem: T) -> (r: Self::Container)
        requires
            self.wf(),
        ensures
            r.deep_view() == self.spec_consume(
                container.deep_view(),
                delim.deep_view(),
                elem.deep_view(),
            ),
    ;
}

impl<T, D, C> DelimitedCollector<T, D> for Collect<C> where
    C: Insert<Elem = T>,
    T: DeepView,
    D: DeepView,
 {
    type Container = C;
    type Kind = Keep;

    open spec fn wf(&self) -> bool {
        C::obeys_insert()
    }

    open spec fn spec_from(&self, elem: T::V) -> C::V {
        C::spec_insert(C::spec_empty(), elem)
    }

    open spec fn spec_consume(&self, container: C::V, delim: D::V, elem: T::V) -> C::V {
        C::spec_insert(container, elem)
    }

    fn from(&self, elem: T) -> (r: C) {
        let mut empty = C::empty();
        empty.insert(elem);
        empty
    }

    fn consume(&self, container: C, _delim: D, elem: T) -> (r: C) {
        let mut container = container;
        container.insert(elem);
        container
    }
}

impl<T: DeepView, D: DeepView> DelimitedCollector<T, D> for ToVec {
    type Container = Vec<T>;
    type Kind = Keep;

    open spec fn wf(&self) -> bool {
        true
    }

    open spec fn spec_from(&self, elem: T::V) -> Seq<T::V> {
        seq![elem]
    }

    open spec fn spec_consume(&self, container: Seq<T::V>, delim: D::V, elem: T::V) -> Seq<T::V> {
        container.push(elem)
    }

    fn from(&self, elem: T) -> (r: Vec<T>) {
        let mut v = Vec::<T>::empty();
        Insert::insert(&mut v, elem);
        assert(Seq::<T::V>::empty().push(elem.deep_view()) =~= seq![elem.deep_view()]);
        v
    }

    fn consume(&self, container: Vec<T>, _delim: D, elem: T) -> (r: Vec<T>) {
        let mut container = container;
        Insert::insert(&mut container, elem);
        container
    }
}

impl<T: DeepView, D: DeepView> DelimitedCollector<T, D> for Ignore {
    type Container = ();
    type Kind = Ignore;

    open spec fn wf(&self) -> bool {
        true
    }

    open spec fn spec_from(&self, elem: T::V) -> () {
        ()
    }

    open spec fn spec_consume(&self, container: (), delim: D::V, elem: T::V) -> () {
        ()
    }

    fn from(&self, _elem: T) -> (r: ()) {
        ()
    }

    fn consume(&self, _container: (), _delim: D, _elem: T) -> (r: ()) {
        ()
    }
}

/// Folds a delimited list from the left: `f(f(e0, d1, e1), d2, e2)` and so on.
pub struct LFold<F, Elem, Delim> {
    f: F,
    phantom: PhantomData<(Elem, Delim)>,
}

impl<F, Elem, Delim> LFold<F, Elem, Delim> {
    pub closed spec fn func(&self) -> F {
        self.f
    }
}

impl<F, Elem, Delim> DelimitedCollector<Elem, Delim> for LFold<F, Elem, Delim> where
    F: Fn(Elem, Delim, Elem) -> Elem,
    Elem: DeepView,
    Delim: DeepView,
 {
    type Container = Elem;
    type Kind = Keep;

    open spec fn wf(&self) -> bool {
        fn3_det(self.func())
    }

    open spec fn spec_from(&self, elem: Elem::V) -> Elem::V {
        elem
    }

    open spec fn spec_consume(&self, container: Elem::V, delim: Delim::V, elem: Elem::V) -> Elem::V {
        fn3_view(self.func(), container, delim, elem)
    }

    fn from(&self, elem: Elem) -> (r: Elem) {
        elem
    }

    fn consume(&self, container: Elem, delim: Delim, elem: Elem) -> (r: Elem) {
        let ghost (cv, dv, ev) = (container.deep_view(), delim.deep_view(), elem.deep_view());
        let ghost (c0, d0, e0) = (container, delim, elem);
        let r = (self.f)(container, delim, elem);
        proof {
            lemma_fn3_view(self.f, c0, d0, e0, r);
        }
        r
    }
}

/// A collector that folds a delimited list from the left with `f`.
pub fn lfold<Elem, Delim, F>(f: F) -> (r: LFold<F, Elem, Delim>) where
    F: Fn(Elem, Delim, Elem) -> Elem,
    ensures
        r.func() == f,
{
    LFold { f, phantom: PhantomData }
}

} // verus!
