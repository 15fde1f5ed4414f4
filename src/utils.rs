use vstd::prelude::*;

verus! {

/// A sequence that always holds at least one element.
#[derive(Debug)]
pub struct NonEmptyVec<T: Clone>(Vec<T>);

/// The error of building a [`NonEmptyVec`] from an empty sequence.
#[derive(Debug, Clone, Copy, PartialEq, Eq)]
pub struct EmptyVecError;

impl<T: Clone> View for NonEmptyVec<T> {
    type V = Seq<T>;

    closed spec fn view(&self) -> Seq<T> {
        self.0@
    }
}

impl<T: Clone> NonEmptyVec<T> {
    #[verifier::type_invariant]
    spec fn inv(&self) -> bool {
        self.0@.len() > 0
    }

    /// The sequence that wraps `v`; it holds the elements of `v`.
    pub closed spec fn spec_wrap(v: Vec<T>) -> Self {
        NonEmptyVec(v)
    }

    /// A sequence of the one element `t`.
    pub fn new(t: T) -> (r: Self)
        ensures
            r@ == seq![t],
    {
        let mut v: Vec<T> = Vec::new();
        v.push(t);
        NonEmptyVec(v)
    }

    /// Wraps `v`, or fails with [`EmptyVecError`] when `v` is empty.
    pub fn try_new(v: Vec<T>) -> (r: Result<Self, EmptyVecError>)
        ensures
            v@.len() == 0 <==> r is Err,
            r matches Ok(n) ==> n@ == v@,
    {
        if v.len() == 0 {
            Err(EmptyVecError)
        } else {
            Ok(NonEmptyVec(v))
        }
    }

    /// Wraps `v` when it is not empty.
    pub fn maybe_new(v: Vec<T>) -> (r: Option<Self>)
        ensures
            v@.len() == 0 <==> r is None,
            r matches Some(n) ==> n@ == v@,
    {
        match Self::try_new(v) {
            Ok(n) => Some(n),
            Err(_) => None,
        }
    }

    /// Appends `t` at the end.
    pub fn push(&mut self, t: T)
        ensures
            final(self)@ == old(self)@.push(t),
    {
        let mut previous = NonEmptyVec::new(t.clone());
        std::mem::swap(self, &mut previous);
        let NonEmptyVec(mut v) = previous;
        v.push(t);
        *self = NonEmptyVec(v);
    }

    /// The elements, in order.
    pub fn into_inner(self) -> (r: Vec<T>)
        ensures
            r@ == self@,
            r@.len() > 0,
    {
        proof {
            use_type_invariant(&self);
        }
        self.0
    }

    /// The number of elements, never zero.
    pub fn len(&self) -> (r: usize)
        ensures
            r == self@.len(),
            r > 0,
    {
        proof {
            use_type_invariant(self);
        }
        self.0.len()
    }

    /// The elements as a slice.
    pub fn as_slice(&self) -> (r: &[T])
        ensures
            r@ == self@,
    {
        self.0.as_slice()
    }
}

impl<T: Clone> Clone for NonEmptyVec<T> {
    fn clone(&self) -> (r: Self)
        ensures
            r@.len() == self@.len(),
    {
        proof {
            use_type_invariant(self);
        }
        NonEmptyVec(self.0.clone())
    }
}

impl<T: Clone> TryFrom<Vec<T>> for NonEmptyVec<T> {
    type Error = EmptyVecError;

    fn try_from(v: Vec<T>) -> (r: Result<NonEmptyVec<T>, EmptyVecError>) {
        if v.len() == 0 {
            Err(EmptyVecError)
        } else {
            Ok(NonEmptyVec(v))
        }
    }
}

impl<T: Clone> vstd::std_specs::convert::TryFromSpecImpl<Vec<T>> for NonEmptyVec<T> {
    open spec fn obeys_try_from_spec() -> bool {
        true
    }

    open spec fn try_from_spec(v: Vec<T>) -> Result<Self, EmptyVecError> {
        if v@.len() == 0 {
            Err(EmptyVecError)
        } else {
            Ok(NonEmptyVec::spec_wrap(v))
        }
    }
}

impl<T: Clone> From<NonEmptyVec<T>> for Vec<T> {
    fn from(n: NonEmptyVec<T>) -> (r: Vec<T>) {
        n.0
    }
}

impl<T: Clone> vstd::std_specs::convert::FromSpecImpl<NonEmptyVec<T>> for Vec<T> {
    open spec fn obeys_from_spec() -> bool {
        true
    }

    closed spec fn from_spec(n: NonEmptyVec<T>) -> Vec<T> {
        n.0
    }
}

/// The sequence that wraps a vector holds that vector's elements.
pub broadcast proof fn lemma_wrap_view<T: Clone>(v: Vec<T>)
    ensures
        #[trigger] NonEmptyVec::spec_wrap(v)@ == v@,
{
}

} // verus!
