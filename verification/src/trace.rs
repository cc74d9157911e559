//! Composable computations that may keep a cache between calls.
//!
//! A computation says on which inputs it can be run and which outputs a
//! run may give. The combinators here build computations from others, and
//! each says the same of what it builds, in terms of its parts.

use vstd::prelude::*;
use vstd::pervasive::cloned;
use std::marker::PhantomData;

verus! {

/// Names a type without holding a value of it.
#[derive(Debug)]
pub struct PhantomNothing<T>(PhantomData<T>);

impl<T> PhantomNothing<T> {
    /// The one value of the marker for `T`.
    pub closed spec fn marker() -> Self {
        PhantomNothing(PhantomData)
    }

    /// The marker for `T`.
    pub fn new() -> (marker: Self)
        ensures
            marker == Self::marker(),
    {
        Self(PhantomData)
    }
}

impl<T> Clone for PhantomNothing<T> {
    fn clone(&self) -> (copy: Self)
        ensures
            copy == *self,
    {
        Self::new()
    }
}

impl<T> Copy for PhantomNothing<T> {

}

/// A computation from `I` to `O` that may keep a cache between calls.
pub trait Trace<I, O> {
    /// What the computation keeps between calls.
    type Cache: Default;

    /// Whether the computation can be run on `input` with `cache`. A
    /// computation that does not say runs on everything.
    open spec fn admits(&self, input: I, cache: Self::Cache) -> bool {
        true
    }

    /// Whether a run on `input` that finds the cache as `before` may leave
    /// it as `after` and return `output`. A computation that does not say
    /// may do anything.
    open spec fn yields(&self, input: I, before: Self::Cache, after: Self::Cache, output: O) -> bool {
        true
    }

    /// Runs the computation on `input`.
    fn trace(&self, input: I, cache: &mut Self::Cache) -> (output: O)
        requires
            self.admits(input, *old(cache)),
        ensures
            self.yields(input, *old(cache), *final(cache), output),
    ;
}

/// A reference to a computation computes what the computation does.
impl<I, O, T: Trace<I, O>> Trace<I, O> for &T {
    type Cache = T::Cache;

    open spec fn admits(&self, input: I, cache: T::Cache) -> bool {
        (**self).admits(input, cache)
    }

    open spec fn yields(&self, input: I, before: T::Cache, after: T::Cache, output: O) -> bool {
        (**self).yields(input, before, after, output)
    }

    fn trace(&self, input: I, cache: &mut T::Cache) -> (output: O) {
        (**self).trace(input, cache)
    }
}

/// A tuple of one computation runs each on its own input, with its own cache.
impl<I0, O0, T0: Trace<I0, O0>> Trace<(I0,), (O0,)> for (T0,) {
    type Cache = (T0::Cache,);

    open spec fn admits(&self, input: (I0,), cache: (T0::Cache,)) -> bool {
        &&& self.0.admits(input.0, cache.0)
    }

    open spec fn yields(
        &self,
        input: (I0,),
        before: (T0::Cache,),
        after: (T0::Cache,),
        output: (O0,),
    ) -> bool {
        &&& self.0.yields(input.0, before.0, after.0, output.0)
    }

    fn trace(&self, input: (I0,), cache: &mut (T0::Cache,)) -> (output: (O0,)) {
        let output0 = self.0.trace(input.0, &mut cache.0);
        (output0,)
    }
}

/// A tuple of two computations runs each on its own input, with its own cache.
impl<I0, O0, T0: Trace<I0, O0>, I1, O1, T1: Trace<I1, O1>> Trace<(I0, I1), (O0, O1)> for (T0, T1) {
    type Cache = (T0::Cache, T1::Cache);

    open spec fn admits(&self, input: (I0, I1), cache: (T0::Cache, T1::Cache)) -> bool {
        &&& self.0.admits(input.0, cache.0)
        &&& self.1.admits(input.1, cache.1)
    }

    open spec fn yields(
        &self,
        input: (I0, I1),
        before: (T0::Cache, T1::Cache),
        after: (T0::Cache, T1::Cache),
        output: (O0, O1),
    ) -> bool {
        &&& self.0.yields(input.0, before.0, after.0, output.0)
        &&& self.1.yields(input.1, before.1, after.1, output.1)
    }

    fn trace(&self, input: (I0, I1), cache: &mut (T0::Cache, T1::Cache)) -> (output: (O0, O1)) {
        let output0 = self.0.trace(input.0, &mut cache.0);
        let output1 = self.1.trace(input.1, &mut cache.1);
        (output0, output1)
    }
}

/// A tuple of three computations runs each on its own input, with its own cache.
impl<I0, O0, T0: Trace<I0, O0>, I1, O1, T1: Trace<I1, O1>, I2, O2, T2: Trace<I2, O2>> Trace<(I0, I1, I2), (O0, O1, O2)> for (T0, T1, T2) {
    type Cache = (T0::Cache, T1::Cache, T2::Cache);

    open spec fn admits(&self, input: (I0, I1, I2), cache: (T0::Cache, T1::Cache, T2::Cache)) -> bool {
        &&& self.0.admits(input.0, cache.0)
        &&& self.1.admits(input.1, cache.1)
        &&& self.2.admits(input.2, cache.2)
    }

    open spec fn yields(
        &self,
        input: (I0, I1, I2),
        before: (T0::Cache, T1::Cache, T2::Cache),
        after: (T0::Cache, T1::Cache, T2::Cache),
        output: (O0, O1, O2),
    ) -> bool {
        &&& self.0.yields(input.0, before.0, after.0, output.0)
        &&& self.1.yields(input.1, before.1, after.1, output.1)
        &&& self.2.yields(input.2, before.2, after.2, output.2)
    }

    fn trace(&self, input: (I0, I1, I2), cache: &mut (T0::Cache, T1::Cache, T2::Cache)) -> (output: (O0, O1, O2)) {
        let output0 = self.0.trace(input.0, &mut cache.0);
        let output1 = self.1.trace(input.1, &mut cache.1);
        let output2 = self.2.trace(input.2, &mut cache.2);
        (output0, output1, output2)
    }
}

/// A tuple of four computations runs each on its own input, with its own cache.
impl<I0, O0, T0: Trace<I0, O0>, I1, O1, T1: Trace<I1, O1>, I2, O2, T2: Trace<I2, O2>, I3, O3, T3: Trace<I3, O3>> Trace<(I0, I1, I2, I3), (O0, O1, O2, O3)> for (T0, T1, T2, T3) {
    type Cache = (T0::Cache, T1::Cache, T2::Cache, T3::Cache);

    open spec fn admits(&self, input: (I0, I1, I2, I3), cache: (T0::Cache, T1::Cache, T2::Cache, T3::Cache)) -> bool {
        &&& self.0.admits(input.0, cache.0)
        &&& self.1.admits(input.1, cache.1)
        &&& self.2.admits(input.2, cache.2)
        &&& self.3.admits(input.3, cache.3)
    }

    open spec fn yields(
        &self,
        input: (I0, I1, I2, I3),
        before: (T0::Cache, T1::Cache, T2::Cache, T3::Cache),
        after: (T0::Cache, T1::Cache, T2::Cache, T3::Cache),
        output: (O0, O1, O2, O3),
    ) -> bool {
        &&& self.0.yields(input.0, before.0, after.0, output.0)
        &&& self.1.yields(input.1, before.1, after.1, output.1)
        &&& self.2.yields(input.2, before.2, after.2, output.2)
        &&& self.3.yields(input.3, before.3, after.3, output.3)
    }

    fn trace(&self, input: (I0, I1, I2, I3), cache: &mut (T0::Cache, T1::Cache, T2::Cache, T3::Cache)) -> (output: (O0, O1, O2, O3)) {
        let output0 = self.0.trace(input.0, &mut cache.0);
        let output1 = self.1.trace(input.1, &mut cache.1);
        let output2 = self.2.trace(input.2, &mut cache.2);
        let output3 = self.3.trace(input.3, &mut cache.3);
        (output0, output1, output2, output3)
    }
}

/// A tuple of five computations runs each on its own input, with its own cache.
impl<I0, O0, T0: Trace<I0, O0>, I1, O1, T1: Trace<I1, O1>, I2, O2, T2: Trace<I2, O2>, I3, O3, T3: Trace<I3, O3>, I4, O4, T4: Trace<I4, O4>> Trace<(I0, I1, I2, I3, I4), (O0, O1, O2, O3, O4)> for (T0, T1, T2, T3, T4) {
    type Cache = (T0::Cache, T1::Cache, T2::Cache, T3::Cache, T4::Cache);

    open spec fn admits(&self, input: (I0, I1, I2, I3, I4), cache: (T0::Cache, T1::Cache, T2::Cache, T3::Cache, T4::Cache)) -> bool {
        &&& self.0.admits(input.0, cache.0)
        &&& self.1.admits(input.1, cache.1)
        &&& self.2.admits(input.2, cache.2)
        &&& self.3.admits(input.3, cache.3)
        &&& self.4.admits(input.4, cache.4)
    }

    open spec fn yields(
        &self,
        input: (I0, I1, I2, I3, I4),
        before: (T0::Cache, T1::Cache, T2::Cache, T3::Cache, T4::Cache),
        after: (T0::Cache, T1::Cache, T2::Cache, T3::Cache, T4::Cache),
        output: (O0, O1, O2, O3, O4),
    ) -> bool {
        &&& self.0.yields(input.0, before.0, after.0, output.0)
        &&& self.1.yields(input.1, before.1, after.1, output.1)
        &&& self.2.yields(input.2, before.2, after.2, output.2)
        &&& self.3.yields(input.3, before.3, after.3, output.3)
        &&& self.4.yields(input.4, before.4, after.4, output.4)
    }

    fn trace(&self, input: (I0, I1, I2, I3, I4), cache: &mut (T0::Cache, T1::Cache, T2::Cache, T3::Cache, T4::Cache)) -> (output: (O0, O1, O2, O3, O4)) {
        let output0 = self.0.trace(input.0, &mut cache.0);
        let output1 = self.1.trace(input.1, &mut cache.1);
        let output2 = self.2.trace(input.2, &mut cache.2);
        let output3 = self.3.trace(input.3, &mut cache.3);
        let output4 = self.4.trace(input.4, &mut cache.4);
        (output0, output1, output2, output3, output4)
    }
}

/// A tuple of six computations runs each on its own input, with its own cache.
impl<I0, O0, T0: Trace<I0, O0>, I1, O1, T1: Trace<I1, O1>, I2, O2, T2: Trace<I2, O2>, I3, O3, T3: Trace<I3, O3>, I4, O4, T4: Trace<I4, O4>, I5, O5, T5: Trace<I5, O5>> Trace<(I0, I1, I2, I3, I4, I5), (O0, O1, O2, O3, O4, O5)> for (T0, T1, T2, T3, T4, T5) {
    type Cache = (T0::Cache, T1::Cache, T2::Cache, T3::Cache, T4::Cache, T5::Cache);

    open spec fn admits(&self, input: (I0, I1, I2, I3, I4, I5), cache: (T0::Cache, T1::Cache, T2::Cache, T3::Cache, T4::Cache, T5::Cache)) -> bool {
        &&& self.0.admits(input.0, cache.0)
        &&& self.1.admits(input.1, cache.1)
        &&& self.2.admits(input.2, cache.2)
        &&& self.3.admits(input.3, cache.3)
        &&& self.4.admits(input.4, cache.4)
        &&& self.5.admits(input.5, cache.5)
    }

    open spec fn yields(
        &self,
        input: (I0, I1, I2, I3, I4, I5),
        before: (T0::Cache, T1::Cache, T2::Cache, T3::Cache, T4::Cache, T5::Cache),
        after: (T0::Cache, T1::Cache, T2::Cache, T3::Cache, T4::Cache, T5::Cache),
        output: (O0, O1, O2, O3, O4, O5),
    ) -> bool {
        &&& self.0.yields(input.0, before.0, after.0, output.0)
        &&& self.1.yields(input.1, before.1, after.1, output.1)
        &&& self.2.yields(input.2, before.2, after.2, output.2)
        &&& self.3.yields(input.3, before.3, after.3, output.3)
        &&& self.4.yields(input.4, before.4, after.4, output.4)
        &&& self.5.yields(input.5, before.5, after.5, output.5)
    }

    fn trace(&self, input: (I0, I1, I2, I3, I4, I5), cache: &mut (T0::Cache, T1::Cache, T2::Cache, T3::Cache, T4::Cache, T5::Cache)) -> (output: (O0, O1, O2, O3, O4, O5)) {
        let output0 = self.0.trace(input.0, &mut cache.0);
        let output1 = self.1.trace(input.1, &mut cache.1);
        let output2 = self.2.trace(input.2, &mut cache.2);
        let output3 = self.3.trace(input.3, &mut cache.3);
        let output4 = self.4.trace(input.4, &mut cache.4);
        let output5 = self.5.trace(input.5, &mut cache.5);
        (output0, output1, output2, output3, output4, output5)
    }
}

/// A tuple of seven computations runs each on its own input, with its own cache.
impl<I0, O0, T0: Trace<I0, O0>, I1, O1, T1: Trace<I1, O1>, I2, O2, T2: Trace<I2, O2>, I3, O3, T3: Trace<I3, O3>, I4, O4, T4: Trace<I4, O4>, I5, O5, T5: Trace<I5, O5>, I6, O6, T6: Trace<I6, O6>> Trace<(I0, I1, I2, I3, I4, I5, I6), (O0, O1, O2, O3, O4, O5, O6)> for (T0, T1, T2, T3, T4, T5, T6) {
    type Cache = (T0::Cache, T1::Cache, T2::Cache, T3::Cache, T4::Cache, T5::Cache, T6::Cache);

    open spec fn admits(&self, input: (I0, I1, I2, I3, I4, I5, I6), cache: (T0::Cache, T1::Cache, T2::Cache, T3::Cache, T4::Cache, T5::Cache, T6::Cache)) -> bool {
        &&& self.0.admits(input.0, cache.0)
        &&& self.1.admits(input.1, cache.1)
        &&& self.2.admits(input.2, cache.2)
        &&& self.3.admits(input.3, cache.3)
        &&& self.4.admits(input.4, cache.4)
        &&& self.5.admits(input.5, cache.5)
        &&& self.6.admits(input.6, cache.6)
    }

    open spec fn yields(
        &self,
        input: (I0, I1, I2, I3, I4, I5, I6),
        before: (T0::Cache, T1::Cache, T2::Cache, T3::Cache, T4::Cache, T5::Cache, T6::Cache),
        after: (T0::Cache, T1::Cache, T2::Cache, T3::Cache, T4::Cache, T5::Cache, T6::Cache),
        output: (O0, O1, O2, O3, O4, O5, O6),
    ) -> bool {
        &&& self.0.yields(input.0, before.0, after.0, output.0)
        &&& self.1.yields(input.1, before.1, after.1, output.1)
        &&& self.2.yields(input.2, before.2, after.2, output.2)
        &&& self.3.yields(input.3, before.3, after.3, output.3)
        &&& self.4.yields(input.4, before.4, after.4, output.4)
        &&& self.5.yields(input.5, before.5, after.5, output.5)
        &&& self.6.yields(input.6, before.6, after.6, output.6)
    }

    fn trace(&self, input: (I0, I1, I2, I3, I4, I5, I6), cache: &mut (T0::Cache, T1::Cache, T2::Cache, T3::Cache, T4::Cache, T5::Cache, T6::Cache)) -> (output: (O0, O1, O2, O3, O4, O5, O6)) {
        let output0 = self.0.trace(input.0, &mut cache.0);
        let output1 = self.1.trace(input.1, &mut cache.1);
        let output2 = self.2.trace(input.2, &mut cache.2);
        let output3 = self.3.trace(input.3, &mut cache.3);
        let output4 = self.4.trace(input.4, &mut cache.4);
        let output5 = self.5.trace(input.5, &mut cache.5);
        let output6 = self.6.trace(input.6, &mut cache.6);
        (output0, output1, output2, output3, output4, output5, output6)
    }
}

/// A tuple of eight computations runs each on its own input, with its own cache.
impl<I0, O0, T0: Trace<I0, O0>, I1, O1, T1: Trace<I1, O1>, I2, O2, T2: Trace<I2, O2>, I3, O3, T3: Trace<I3, O3>, I4, O4, T4: Trace<I4, O4>, I5, O5, T5: Trace<I5, O5>, I6, O6, T6: Trace<I6, O6>, I7, O7, T7: Trace<I7, O7>> Trace<(I0, I1, I2, I3, I4, I5, I6, I7), (O0, O1, O2, O3, O4, O5, O6, O7)> for (T0, T1, T2, T3, T4, T5, T6, T7) {
    type Cache = (T0::Cache, T1::Cache, T2::Cache, T3::Cache, T4::Cache, T5::Cache, T6::Cache, T7::Cache);

    open spec fn admits(&self, input: (I0, I1, I2, I3, I4, I5, I6, I7), cache: (T0::Cache, T1::Cache, T2::Cache, T3::Cache, T4::Cache, T5::Cache, T6::Cache, T7::Cache)) -> bool {
        &&& self.0.admits(input.0, cache.0)
        &&& self.1.admits(input.1, cache.1)
        &&& self.2.admits(input.2, cache.2)
        &&& self.3.admits(input.3, cache.3)
        &&& self.4.admits(input.4, cache.4)
        &&& self.5.admits(input.5, cache.5)
        &&& self.6.admits(input.6, cache.6)
        &&& self.7.admits(input.7, cache.7)
    }

    open spec fn yields(
        &self,
        input: (I0, I1, I2, I3, I4, I5, I6, I7),
        before: (T0::Cache, T1::Cache, T2::Cache, T3::Cache, T4::Cache, T5::Cache, T6::Cache, T7::Cache),
        after: (T0::Cache, T1::Cache, T2::Cache, T3::Cache, T4::Cache, T5::Cache, T6::Cache, T7::Cache),
        output: (O0, O1, O2, O3, O4, O5, O6, O7),
    ) -> bool {
        &&& self.0.yields(input.0, before.0, after.0, output.0)
        &&& self.1.yields(input.1, before.1, after.1, output.1)
        &&& self.2.yields(input.2, before.2, after.2, output.2)
        &&& self.3.yields(input.3, before.3, after.3, output.3)
        &&& self.4.yields(input.4, before.4, after.4, output.4)
        &&& self.5.yields(input.5, before.5, after.5, output.5)
        &&& self.6.yields(input.6, before.6, after.6, output.6)
        &&& self.7.yields(input.7, before.7, after.7, output.7)
    }

    fn trace(&self, input: (I0, I1, I2, I3, I4, I5, I6, I7), cache: &mut (T0::Cache, T1::Cache, T2::Cache, T3::Cache, T4::Cache, T5::Cache, T6::Cache, T7::Cache)) -> (output: (O0, O1, O2, O3, O4, O5, O6, O7)) {
        let output0 = self.0.trace(input.0, &mut cache.0);
        let output1 = self.1.trace(input.1, &mut cache.1);
        let output2 = self.2.trace(input.2, &mut cache.2);
        let output3 = self.3.trace(input.3, &mut cache.3);
        let output4 = self.4.trace(input.4, &mut cache.4);
        let output5 = self.5.trace(input.5, &mut cache.5);
        let output6 = self.6.trace(input.6, &mut cache.6);
        let output7 = self.7.trace(input.7, &mut cache.7);
        (output0, output1, output2, output3, output4, output5, output6, output7)
    }
}

/// A tuple of nine computations runs each on its own input, with its own cache.
impl<I0, O0, T0: Trace<I0, O0>, I1, O1, T1: Trace<I1, O1>, I2, O2, T2: Trace<I2, O2>, I3, O3, T3: Trace<I3, O3>, I4, O4, T4: Trace<I4, O4>, I5, O5, T5: Trace<I5, O5>, I6, O6, T6: Trace<I6, O6>, I7, O7, T7: Trace<I7, O7>, I8, O8, T8: Trace<I8, O8>> Trace<(I0, I1, I2, I3, I4, I5, I6, I7, I8), (O0, O1, O2, O3, O4, O5, O6, O7, O8)> for (T0, T1, T2, T3, T4, T5, T6, T7, T8) {
    type Cache = (T0::Cache, T1::Cache, T2::Cache, T3::Cache, T4::Cache, T5::Cache, T6::Cache, T7::Cache, T8::Cache);

    open spec fn admits(&self, input: (I0, I1, I2, I3, I4, I5, I6, I7, I8), cache: (T0::Cache, T1::Cache, T2::Cache, T3::Cache, T4::Cache, T5::Cache, T6::Cache, T7::Cache, T8::Cache)) -> bool {
        &&& self.0.admits(input.0, cache.0)
        &&& self.1.admits(input.1, cache.1)
        &&& self.2.admits(input.2, cache.2)
        &&& self.3.admits(input.3, cache.3)
        &&& self.4.admits(input.4, cache.4)
        &&& self.5.admits(input.5, cache.5)
        &&& self.6.admits(input.6, cache.6)
        &&& self.7.admits(input.7, cache.7)
        &&& self.8.admits(input.8, cache.8)
    }

    open spec fn yields(
        &self,
        input: (I0, I1, I2, I3, I4, I5, I6, I7, I8),
        before: (T0::Cache, T1::Cache, T2::Cache, T3::Cache, T4::Cache, T5::Cache, T6::Cache, T7::Cache, T8::Cache),
        after: (T0::Cache, T1::Cache, T2::Cache, T3::Cache, T4::Cache, T5::Cache, T6::Cache, T7::Cache, T8::Cache),
        output: (O0, O1, O2, O3, O4, O5, O6, O7, O8),
    ) -> bool {
        &&& self.0.yields(input.0, before.0, after.0, output.0)
        &&& self.1.yields(input.1, before.1, after.1, output.1)
        &&& self.2.yields(input.2, before.2, after.2, output.2)
        &&& self.3.yields(input.3, before.3, after.3, output.3)
        &&& self.4.yields(input.4, before.4, after.4, output.4)
        &&& self.5.yields(input.5, before.5, after.5, output.5)
        &&& self.6.yields(input.6, before.6, after.6, output.6)
        &&& self.7.yields(input.7, before.7, after.7, output.7)
        &&& self.8.yields(input.8, before.8, after.8, output.8)
    }

    fn trace(&self, input: (I0, I1, I2, I3, I4, I5, I6, I7, I8), cache: &mut (T0::Cache, T1::Cache, T2::Cache, T3::Cache, T4::Cache, T5::Cache, T6::Cache, T7::Cache, T8::Cache)) -> (output: (O0, O1, O2, O3, O4, O5, O6, O7, O8)) {
        let output0 = self.0.trace(input.0, &mut cache.0);
        let output1 = self.1.trace(input.1, &mut cache.1);
        let output2 = self.2.trace(input.2, &mut cache.2);
        let output3 = self.3.trace(input.3, &mut cache.3);
        let output4 = self.4.trace(input.4, &mut cache.4);
        let output5 = self.5.trace(input.5, &mut cache.5);
        let output6 = self.6.trace(input.6, &mut cache.6);
        let output7 = self.7.trace(input.7, &mut cache.7);
        let output8 = self.8.trace(input.8, &mut cache.8);
        (output0, output1, output2, output3, output4, output5, output6, output7, output8)
    }
}

/// A tuple of ten computations runs each on its own input, with its own cache.
impl<I0, O0, T0: Trace<I0, O0>, I1, O1, T1: Trace<I1, O1>, I2, O2, T2: Trace<I2, O2>, I3, O3, T3: Trace<I3, O3>, I4, O4, T4: Trace<I4, O4>, I5, O5, T5: Trace<I5, O5>, I6, O6, T6: Trace<I6, O6>, I7, O7, T7: Trace<I7, O7>, I8, O8, T8: Trace<I8, O8>, I9, O9, T9: Trace<I9, O9>> Trace<(I0, I1, I2, I3, I4, I5, I6, I7, I8, I9), (O0, O1, O2, O3, O4, O5, O6, O7, O8, O9)> for (T0, T1, T2, T3, T4, T5, T6, T7, T8, T9) {
    type Cache = (T0::Cache, T1::Cache, T2::Cache, T3::Cache, T4::Cache, T5::Cache, T6::Cache, T7::Cache, T8::Cache, T9::Cache);

    open spec fn admits(&self, input: (I0, I1, I2, I3, I4, I5, I6, I7, I8, I9), cache: (T0::Cache, T1::Cache, T2::Cache, T3::Cache, T4::Cache, T5::Cache, T6::Cache, T7::Cache, T8::Cache, T9::Cache)) -> bool {
        &&& self.0.admits(input.0, cache.0)
        &&& self.1.admits(input.1, cache.1)
        &&& self.2.admits(input.2, cache.2)
        &&& self.3.admits(input.3, cache.3)
        &&& self.4.admits(input.4, cache.4)
        &&& self.5.admits(input.5, cache.5)
        &&& self.6.admits(input.6, cache.6)
        &&& self.7.admits(input.7, cache.7)
        &&& self.8.admits(input.8, cache.8)
        &&& self.9.admits(input.9, cache.9)
    }

    open spec fn yields(
        &self,
        input: (I0, I1, I2, I3, I4, I5, I6, I7, I8, I9),
        before: (T0::Cache, T1::Cache, T2::Cache, T3::Cache, T4::Cache, T5::Cache, T6::Cache, T7::Cache, T8::Cache, T9::Cache),
        after: (T0::Cache, T1::Cache, T2::Cache, T3::Cache, T4::Cache, T5::Cache, T6::Cache, T7::Cache, T8::Cache, T9::Cache),
        output: (O0, O1, O2, O3, O4, O5, O6, O7, O8, O9),
    ) -> bool {
        &&& self.0.yields(input.0, before.0, after.0, output.0)
        &&& self.1.yields(input.1, before.1, after.1, output.1)
        &&& self.2.yields(input.2, before.2, after.2, output.2)
        &&& self.3.yields(input.3, before.3, after.3, output.3)
        &&& self.4.yields(input.4, before.4, after.4, output.4)
        &&& self.5.yields(input.5, before.5, after.5, output.5)
        &&& self.6.yields(input.6, before.6, after.6, output.6)
        &&& self.7.yields(input.7, before.7, after.7, output.7)
        &&& self.8.yields(input.8, before.8, after.8, output.8)
        &&& self.9.yields(input.9, before.9, after.9, output.9)
    }

    fn trace(&self, input: (I0, I1, I2, I3, I4, I5, I6, I7, I8, I9), cache: &mut (T0::Cache, T1::Cache, T2::Cache, T3::Cache, T4::Cache, T5::Cache, T6::Cache, T7::Cache, T8::Cache, T9::Cache)) -> (output: (O0, O1, O2, O3, O4, O5, O6, O7, O8, O9)) {
        let output0 = self.0.trace(input.0, &mut cache.0);
        let output1 = self.1.trace(input.1, &mut cache.1);
        let output2 = self.2.trace(input.2, &mut cache.2);
        let output3 = self.3.trace(input.3, &mut cache.3);
        let output4 = self.4.trace(input.4, &mut cache.4);
        let output5 = self.5.trace(input.5, &mut cache.5);
        let output6 = self.6.trace(input.6, &mut cache.6);
        let output7 = self.7.trace(input.7, &mut cache.7);
        let output8 = self.8.trace(input.8, &mut cache.8);
        let output9 = self.9.trace(input.9, &mut cache.9);
        (output0, output1, output2, output3, output4, output5, output6, output7, output8, output9)
    }
}

/// A tuple of eleven computations runs each on its own input, with its own cache.
impl<I0, O0, T0: Trace<I0, O0>, I1, O1, T1: Trace<I1, O1>, I2, O2, T2: Trace<I2, O2>, I3, O3, T3: Trace<I3, O3>, I4, O4, T4: Trace<I4, O4>, I5, O5, T5: Trace<I5, O5>, I6, O6, T6: Trace<I6, O6>, I7, O7, T7: Trace<I7, O7>, I8, O8, T8: Trace<I8, O8>, I9, O9, T9: Trace<I9, O9>, I10, O10, T10: Trace<I10, O10>> Trace<(I0, I1, I2, I3, I4, I5, I6, I7, I8, I9, I10), (O0, O1, O2, O3, O4, O5, O6, O7, O8, O9, O10)> for (T0, T1, T2, T3, T4, T5, T6, T7, T8, T9, T10) {
    type Cache = (T0::Cache, T1::Cache, T2::Cache, T3::Cache, T4::Cache, T5::Cache, T6::Cache, T7::Cache, T8::Cache, T9::Cache, T10::Cache);

    open spec fn admits(&self, input: (I0, I1, I2, I3, I4, I5, I6, I7, I8, I9, I10), cache: (T0::Cache, T1::Cache, T2::Cache, T3::Cache, T4::Cache, T5::Cache, T6::Cache, T7::Cache, T8::Cache, T9::Cache, T10::Cache)) -> bool {
        &&& self.0.admits(input.0, cache.0)
        &&& self.1.admits(input.1, cache.1)
        &&& self.2.admits(input.2, cache.2)
        &&& self.3.admits(input.3, cache.3)
        &&& self.4.admits(input.4, cache.4)
        &&& self.5.admits(input.5, cache.5)
        &&& self.6.admits(input.6, cache.6)
        &&& self.7.admits(input.7, cache.7)
        &&& self.8.admits(input.8, cache.8)
        &&& self.9.admits(input.9, cache.9)
        &&& self.10.admits(input.10, cache.10)
    }

    open spec fn yields(
        &self,
        input: (I0, I1, I2, I3, I4, I5, I6, I7, I8, I9, I10),
        before: (T0::Cache, T1::Cache, T2::Cache, T3::Cache, T4::Cache, T5::Cache, T6::Cache, T7::Cache, T8::Cache, T9::Cache, T10::Cache),
        after: (T0::Cache, T1::Cache, T2::Cache, T3::Cache, T4::Cache, T5::Cache, T6::Cache, T7::Cache, T8::Cache, T9::Cache, T10::Cache),
        output: (O0, O1, O2, O3, O4, O5, O6, O7, O8, O9, O10),
    ) -> bool {
        &&& self.0.yields(input.0, before.0, after.0, output.0)
        &&& self.1.yields(input.1, before.1, after.1, output.1)
        &&& self.2.yields(input.2, before.2, after.2, output.2)
        &&& self.3.yields(input.3, before.3, after.3, output.3)
        &&& self.4.yields(input.4, before.4, after.4, output.4)
        &&& self.5.yields(input.5, before.5, after.5, output.5)
        &&& self.6.yields(input.6, before.6, after.6, output.6)
        &&& self.7.yields(input.7, before.7, after.7, output.7)
        &&& self.8.yields(input.8, before.8, after.8, output.8)
        &&& self.9.yields(input.9, before.9, after.9, output.9)
        &&& self.10.yields(input.10, before.10, after.10, output.10)
    }

    fn trace(&self, input: (I0, I1, I2, I3, I4, I5, I6, I7, I8, I9, I10), cache: &mut (T0::Cache, T1::Cache, T2::Cache, T3::Cache, T4::Cache, T5::Cache, T6::Cache, T7::Cache, T8::Cache, T9::Cache, T10::Cache)) -> (output: (O0, O1, O2, O3, O4, O5, O6, O7, O8, O9, O10)) {
        let output0 = self.0.trace(input.0, &mut cache.0);
        let output1 = self.1.trace(input.1, &mut cache.1);
        let output2 = self.2.trace(input.2, &mut cache.2);
        let output3 = self.3.trace(input.3, &mut cache.3);
        let output4 = self.4.trace(input.4, &mut cache.4);
        let output5 = self.5.trace(input.5, &mut cache.5);
        let output6 = self.6.trace(input.6, &mut cache.6);
        let output7 = self.7.trace(input.7, &mut cache.7);
        let output8 = self.8.trace(input.8, &mut cache.8);
        let output9 = self.9.trace(input.9, &mut cache.9);
        let output10 = self.10.trace(input.10, &mut cache.10);
        (output0, output1, output2, output3, output4, output5, output6, output7, output8, output9, output10)
    }
}

/// A tuple of twelve computations runs each on its own input, with its own cache.
impl<I0, O0, T0: Trace<I0, O0>, I1, O1, T1: Trace<I1, O1>, I2, O2, T2: Trace<I2, O2>, I3, O3, T3: Trace<I3, O3>, I4, O4, T4: Trace<I4, O4>, I5, O5, T5: Trace<I5, O5>, I6, O6, T6: Trace<I6, O6>, I7, O7, T7: Trace<I7, O7>, I8, O8, T8: Trace<I8, O8>, I9, O9, T9: Trace<I9, O9>, I10, O10, T10: Trace<I10, O10>, I11, O11, T11: Trace<I11, O11>> Trace<(I0, I1, I2, I3, I4, I5, I6, I7, I8, I9, I10, I11), (O0, O1, O2, O3, O4, O5, O6, O7, O8, O9, O10, O11)> for (T0, T1, T2, T3, T4, T5, T6, T7, T8, T9, T10, T11) {
    type Cache = (T0::Cache, T1::Cache, T2::Cache, T3::Cache, T4::Cache, T5::Cache, T6::Cache, T7::Cache, T8::Cache, T9::Cache, T10::Cache, T11::Cache);

    open spec fn admits(&self, input: (I0, I1, I2, I3, I4, I5, I6, I7, I8, I9, I10, I11), cache: (T0::Cache, T1::Cache, T2::Cache, T3::Cache, T4::Cache, T5::Cache, T6::Cache, T7::Cache, T8::Cache, T9::Cache, T10::Cache, T11::Cache)) -> bool {
        &&& self.0.admits(input.0, cache.0)
        &&& self.1.admits(input.1, cache.1)
        &&& self.2.admits(input.2, cache.2)
        &&& self.3.admits(input.3, cache.3)
        &&& self.4.admits(input.4, cache.4)
        &&& self.5.admits(input.5, cache.5)
        &&& self.6.admits(input.6, cache.6)
        &&& self.7.admits(input.7, cache.7)
        &&& self.8.admits(input.8, cache.8)
        &&& self.9.admits(input.9, cache.9)
        &&& self.10.admits(input.10, cache.10)
        &&& self.11.admits(input.11, cache.11)
    }

    open spec fn yields(
        &self,
        input: (I0, I1, I2, I3, I4, I5, I6, I7, I8, I9, I10, I11),
        before: (T0::Cache, T1::Cache, T2::Cache, T3::Cache, T4::Cache, T5::Cache, T6::Cache, T7::Cache, T8::Cache, T9::Cache, T10::Cache, T11::Cache),
        after: (T0::Cache, T1::Cache, T2::Cache, T3::Cache, T4::Cache, T5::Cache, T6::Cache, T7::Cache, T8::Cache, T9::Cache, T10::Cache, T11::Cache),
        output: (O0, O1, O2, O3, O4, O5, O6, O7, O8, O9, O10, O11),
    ) -> bool {
        &&& self.0.yields(input.0, before.0, after.0, output.0)
        &&& self.1.yields(input.1, before.1, after.1, output.1)
        &&& self.2.yields(input.2, before.2, after.2, output.2)
        &&& self.3.yields(input.3, before.3, after.3, output.3)
        &&& self.4.yields(input.4, before.4, after.4, output.4)
        &&& self.5.yields(input.5, before.5, after.5, output.5)
        &&& self.6.yields(input.6, before.6, after.6, output.6)
        &&& self.7.yields(input.7, before.7, after.7, output.7)
        &&& self.8.yields(input.8, before.8, after.8, output.8)
        &&& self.9.yields(input.9, before.9, after.9, output.9)
        &&& self.10.yields(input.10, before.10, after.10, output.10)
        &&& self.11.yields(input.11, before.11, after.11, output.11)
    }

    fn trace(&self, input: (I0, I1, I2, I3, I4, I5, I6, I7, I8, I9, I10, I11), cache: &mut (T0::Cache, T1::Cache, T2::Cache, T3::Cache, T4::Cache, T5::Cache, T6::Cache, T7::Cache, T8::Cache, T9::Cache, T10::Cache, T11::Cache)) -> (output: (O0, O1, O2, O3, O4, O5, O6, O7, O8, O9, O10, O11)) {
        let output0 = self.0.trace(input.0, &mut cache.0);
        let output1 = self.1.trace(input.1, &mut cache.1);
        let output2 = self.2.trace(input.2, &mut cache.2);
        let output3 = self.3.trace(input.3, &mut cache.3);
        let output4 = self.4.trace(input.4, &mut cache.4);
        let output5 = self.5.trace(input.5, &mut cache.5);
        let output6 = self.6.trace(input.6, &mut cache.6);
        let output7 = self.7.trace(input.7, &mut cache.7);
        let output8 = self.8.trace(input.8, &mut cache.8);
        let output9 = self.9.trace(input.9, &mut cache.9);
        let output10 = self.10.trace(input.10, &mut cache.10);
        let output11 = self.11.trace(input.11, &mut cache.11);
        (output0, output1, output2, output3, output4, output5, output6, output7, output8, output9, output10, output11)
    }
}

/// The computation that returns its input.
#[derive(Debug, Clone, Copy)]
pub struct In2Out;

impl<T> Trace<T, T> for In2Out {
    type Cache = ();

    open spec fn admits(&self, input: T, cache: ()) -> bool {
        true
    }

    open spec fn yields(&self, input: T, before: (), after: (), output: T) -> bool {
        output == input
    }

    fn trace(&self, input: T, _cache: &mut ()) -> (output: T) {
        input
    }
}

/// The computation that a function performs.
#[derive(Debug, Clone, Copy)]
pub struct Func<F>(pub F);

impl<I, O, F: Fn(I) -> O> Trace<I, O> for Func<F> {
    type Cache = ();

    open spec fn admits(&self, input: I, cache: ()) -> bool {
        call_requires(self.0, (input,))
    }

    open spec fn yields(&self, input: I, before: (), after: (), output: O) -> bool {
        call_ensures(self.0, (input,), output)
    }

    fn trace(&self, input: I, _cache: &mut ()) -> (output: O) {
        (self.0)(input)
    }
}

/// A computation that is built from a value at its first run and kept in
/// the cache from then on.
#[derive(Debug, Clone, Copy)]
pub struct WrapLazy<T, F> {
    parent: T,
    func: F,
}

impl<T, F> WrapLazy<T, F> {
    /// The value that the computation is built from.
    pub closed spec fn parent(&self) -> T {
        self.parent
    }

    /// The function that builds the computation.
    pub closed spec fn func(&self) -> F {
        self.func
    }
}

impl<I, O, R: Trace<I, O>, F: Fn(T) -> R, T: Clone> Trace<I, O> for WrapLazy<T, F> {
    type Cache = (Option<R>, R::Cache);

    /// With a built computation in the cache, that one must admit the
    /// input. Without, the builder must accept every copy of the value,
    /// and whatever it builds must admit the input.
    open spec fn admits(&self, input: I, cache: (Option<R>, R::Cache)) -> bool {
        match cache.0 {
            Some(built) => built.admits(input, cache.1),
            None => forall|copy: T| #[trigger]
                cloned(self.parent(), copy) ==> {
                    &&& call_requires(self.func(), (copy,))
                    &&& forall|built: R| #[trigger]
                        call_ensures(self.func(), (copy,), built) ==> built.admits(input, cache.1)
                },
        }
    }

    /// The built computation runs, after it was built from a copy of the
    /// value if the cache held none, and stays in the cache.
    open spec fn yields(
        &self,
        input: I,
        before: (Option<R>, R::Cache),
        after: (Option<R>, R::Cache),
        output: O,
    ) -> bool {
        match before.0 {
            Some(built) => after.0 == Some(built) && built.yields(
                input,
                before.1,
                after.1,
                output,
            ),
            None => exists|copy: T, built: R|
                {
                    &&& cloned(self.parent(), copy)
                    &&& #[trigger] call_ensures(self.func(), (copy,), built)
                    &&& after.0 == Some(built)
                    &&& built.yields(input, before.1, after.1, output)
                },
        }
    }

    fn trace(&self, input: I, cache: &mut (Option<R>, R::Cache)) -> (output: O) {
        if cache.0.is_none() {
            let copy = self.parent.clone();
            assert(cloned(self.parent(), copy));
            let built = (self.func)(copy);
            cache.0 = Some(built);
        }
        let output = cache.0.as_ref().unwrap().trace(input, &mut cache.1);
        output
    }
}

/// A computation under fixed input and output types.
#[derive(Debug, Clone, Copy)]
pub struct Cast<T, I, O> {
    parent: T,
    _phantom: PhantomNothing<(I, O)>,
}

impl<T, I, O> Cast<T, I, O> {
    /// The computation itself.
    pub closed spec fn parent(&self) -> T {
        self.parent
    }
}

impl<I, O, T: Trace<I, O>> Trace<I, O> for Cast<T, I, O> {
    type Cache = T::Cache;

    open spec fn admits(&self, input: I, cache: T::Cache) -> bool {
        self.parent().admits(input, cache)
    }

    open spec fn yields(&self, input: I, before: T::Cache, after: T::Cache, output: O) -> bool {
        self.parent().yields(input, before, after, output)
    }

    fn trace(&self, input: I, cache: &mut T::Cache) -> (output: O) {
        self.parent.trace(input, cache)
    }
}

/// A computation whose input is first passed through a function.
#[derive(Debug, Clone, Copy)]
pub struct MapIn<T, F, P> {
    parent: T,
    func: F,
    _phantom: PhantomNothing<P>,
}

impl<T, F, P> MapIn<T, F, P> {
    /// The computation that runs second.
    pub closed spec fn parent(&self) -> T {
        self.parent
    }

    /// The function that runs first.
    pub closed spec fn func(&self) -> F {
        self.func
    }
}

impl<I, O, I2, F: Fn(I2) -> I, T: Trace<I, O>> Trace<I2, O> for MapIn<T, F, I> {
    type Cache = T::Cache;

    /// The function must accept the input, and the computation whatever
    /// the function makes of it.
    open spec fn admits(&self, input: I2, cache: T::Cache) -> bool {
        &&& call_requires(self.func(), (input,))
        &&& forall|mid: I| #[trigger]
            call_ensures(self.func(), (input,), mid) ==> self.parent().admits(mid, cache)
    }

    /// The computation runs on what the function made of the input.
    open spec fn yields(&self, input: I2, before: T::Cache, after: T::Cache, output: O) -> bool {
        exists|mid: I| #[trigger]
            call_ensures(self.func(), (input,), mid) && self.parent().yields(
                mid,
                before,
                after,
                output,
            )
    }

    fn trace(&self, input: I2, cache: &mut T::Cache) -> (output: O) {
        let mid = (self.func)(input);
        self.parent.trace(mid, cache)
    }
}

/// A computation whose output is passed through a function.
#[derive(Debug, Clone, Copy)]
pub struct MapOut<T, F, P> {
    parent: T,
    func: F,
    _phantom: PhantomNothing<P>,
}

impl<T, F, P> MapOut<T, F, P> {
    /// The computation that runs first.
    pub closed spec fn parent(&self) -> T {
        self.parent
    }

    /// The function that runs second.
    pub closed spec fn func(&self) -> F {
        self.func
    }
}

impl<I, O, O2, F: Fn(O) -> O2, T: Trace<I, O>> Trace<I, O2> for MapOut<T, F, O> {
    type Cache = T::Cache;

    /// The computation must admit the input, and the function accept
    /// whatever the computation may return, however it leaves the cache.
    open spec fn admits(&self, input: I, cache: T::Cache) -> bool {
        &&& self.parent().admits(input, cache)
        &&& forall|after: T::Cache, mid: O| #[trigger]
            self.parent().yields(input, cache, after, mid) ==> call_requires(self.func(), (mid,))
    }

    /// The function runs on what the computation returned.
    open spec fn yields(&self, input: I, before: T::Cache, after: T::Cache, output: O2) -> bool {
        exists|mid: O| #[trigger]
            self.parent().yields(input, before, after, mid) && call_ensures(
                self.func(),
                (mid,),
                output,
            )
    }

    fn trace(&self, input: I, cache: &mut T::Cache) -> (output: O2) {
        let mid = self.parent.trace(input, cache);
        (self.func)(mid)
    }
}

/// Two computations in a row: the output of the first is the input of the
/// second, and each keeps its own cache.
#[derive(Debug, Clone, Copy)]
pub struct Out2In<T, U, P> {
    parent: T,
    next: U,
    _phantom: PhantomNothing<P>,
}

impl<T, U, P> Out2In<T, U, P> {
    /// The computation that runs first.
    pub closed spec fn parent(&self) -> T {
        self.parent
    }

    /// The computation that runs second.
    pub closed spec fn next(&self) -> U {
        self.next
    }
}

impl<I, O, O2, U: Trace<O, O2>, T: Trace<I, O>> Trace<I, O2> for Out2In<T, U, O> {
    type Cache = (T::Cache, U::Cache);

    /// The first must admit the input, and the second whatever the first
    /// may return.
    open spec fn admits(&self, input: I, cache: (T::Cache, U::Cache)) -> bool {
        &&& self.parent().admits(input, cache.0)
        &&& forall|after: T::Cache, mid: O| #[trigger]
            self.parent().yields(input, cache.0, after, mid) ==> self.next().admits(mid, cache.1)
    }

    /// The second runs on what the first returned.
    open spec fn yields(
        &self,
        input: I,
        before: (T::Cache, U::Cache),
        after: (T::Cache, U::Cache),
        output: O2,
    ) -> bool {
        exists|mid: O| #[trigger]
            self.parent().yields(input, before.0, after.0, mid) && self.next().yields(
                mid,
                before.1,
                after.1,
                output,
            )
    }

    fn trace(&self, input: I, cache: &mut (T::Cache, U::Cache)) -> (output: O2) {
        let mid = self.parent.trace(input, &mut cache.0);
        let output = self.next.trace(mid, &mut cache.1);
        assert(self.parent().yields(input, old(cache).0, cache.0, mid) && self.next().yields(
            mid,
            old(cache).1,
            cache.1,
            output,
        ));
        output
    }
}

/// What every computation can be made into.
pub trait TraceExtCore<I, O>: Trace<I, O> + Sized {
    /// The computation by reference.
    fn by_ref(&self) -> (same: &Self)
        ensures
            same == self,
    {
        self
    }

    /// What `f` makes of the computation.
    fn wrap<R, F: FnOnce(Self) -> R>(self, f: F) -> (made: R)
        requires
            call_requires(f, (self,)),
        ensures
            call_ensures(f, (self,), made),
    {
        f(self)
    }

    /// What `f` makes of the computation, made at the first run.
    fn wrap_lazy<R, F: Fn(Self) -> R>(self, f: F) -> (lazy: WrapLazy<Self, F>)
        ensures
            lazy.parent() == self,
            lazy.func() == f,
    {
        WrapLazy { parent: self, func: f }
    }

    /// The computation under the input and output types `I` and `O`.
    fn cast(self) -> (fixed: Cast<Self, I, O>)
        ensures
            fixed.parent() == self,
    {
        Cast { parent: self, _phantom: PhantomNothing::new() }
    }

    /// The computation with `f` applied to its input first.
    fn map_in<I2, F: Fn(I2) -> I>(self, f: F) -> (mapped: MapIn<Self, F, I>)
        ensures
            mapped.parent() == self,
            mapped.func() == f,
    {
        MapIn { parent: self, func: f, _phantom: PhantomNothing::new() }
    }

    /// The computation with `f` applied to its output.
    fn map_out<O2, F: Fn(O) -> O2>(self, f: F) -> (mapped: MapOut<Self, F, O>)
        ensures
            mapped.parent() == self,
            mapped.func() == f,
    {
        MapOut { parent: self, func: f, _phantom: PhantomNothing::new() }
    }

    /// The computation followed by `s`.
    fn out2in<O2, T: Trace<O, O2>>(self, s: T) -> (chained: Out2In<Self, T, O>)
        ensures
            chained.parent() == self,
            chained.next() == s,
    {
        Out2In { parent: self, next: s, _phantom: PhantomNothing::new() }
    }
}

impl<I, O, T: Trace<I, O>> TraceExtCore<I, O> for T {

}

} // verus!
