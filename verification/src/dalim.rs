use vstd::prelude::*;

use crate::bayer::{BayerImage, RgbImage};
use crate::demosaic::{demosaicable, is_linear_demosaic, output_fits, DemosaicLinear};
use crate::primitive::FornaxPrimitive;

verus! {

/// The demosaicing algorithms the post-processor offers.
#[derive(Debug, Clone, Copy, PartialEq, Eq, Structural, Hash)]
pub enum Demosaicer {
    /// Bilinear interpolation, `DemosaicLinear`.
    Linear,
}

/// The settings of the post-processor.
#[derive(Debug, Clone, Copy, PartialEq, Eq, Structural, Hash)]
pub struct DalimParams {
    pub demosaicer: Demosaicer,
}

/// A post-processor that turns the Bayer image of a decoder into a colour
/// image with the demosaicer its parameters name.
#[derive(Debug, PartialEq, Eq, Hash)]
pub struct Dalim<T> where T: FornaxPrimitive {
    _marker: core::marker::PhantomData<T>,
    params: DalimParams,
}

impl<T> Clone for Dalim<T> where T: FornaxPrimitive {
    fn clone(&self) -> (r: Self)
        ensures
            r == *self,
    {
        proof {
            Self::lemma_equal_iff_params_equal(Self { _marker: core::marker::PhantomData, params: self.params }, *self);
        }
        Self { _marker: core::marker::PhantomData, params: self.params }
    }
}

impl<T> Dalim<T> where T: FornaxPrimitive {
    /// The parameters this post-processor was made with.
    pub closed spec fn spec_params(&self) -> DalimParams {
        self.params
    }

    /// The post-processor made with `params`.
    pub closed spec fn from_params(params: DalimParams) -> Self {
        Dalim { _marker: core::marker::PhantomData, params }
    }

    /// Two post-processors made from parameters are equal exactly when the
    /// parameters are.
    pub proof fn law_equal_params_equal_post_processors(p1: DalimParams, p2: DalimParams)
        ensures
            Self::from_params(p1) == Self::from_params(p2) <==> p1 == p2,
    {
        Self::lemma_equal_iff_params_equal(Self::from_params(p1), Self::from_params(p2));
    }

    proof fn lemma_equal_iff_params_equal(a: Self, b: Self)
        ensures
            a == b <==> a.spec_params() == b.spec_params(),
    {
        if a.spec_params() == b.spec_params() {
            assert(a._marker == b._marker);
        }
    }

    pub fn new(params: DalimParams) -> (r: Self)
        ensures
            r == Self::from_params(params),
            r.spec_params() == params,
    {
        Self { _marker: core::marker::PhantomData, params }
    }

    /// Demosaics what the decoder produced; a decoder error is handed back
    /// unchanged.
    pub fn post_process<E>(&self, decoded: Result<BayerImage<T>, E>) -> (r: Result<RgbImage<T>, E>)
        requires
            decoded matches Ok(img) ==> demosaicable(img) && output_fits(img),
        ensures
            decoded matches Err(e) ==> r == Err::<RgbImage<T>, E>(e),
            decoded matches Ok(img) ==> (r matches Ok(out) && match self.spec_params().demosaicer {
                Demosaicer::Linear => is_linear_demosaic(img, out),
            }),
    {
        let bayer_image = match decoded {
            Ok(img) => img,
            Err(e) => return Err(e),
        };
        let img = match &self.params.demosaicer {
            Demosaicer::Linear => DemosaicLinear.demosaic(&bayer_image),
        };
        Ok(img)
    }
}

} // verus!
