use vstd::prelude::*;

verus! {

/// What goes wrong when parameters or rows do not line up with the number
/// of features. Each variant carries the length that was expected and the
/// one that was found.
#[derive(Debug, Clone, Copy, PartialEq, Eq, Structural)]
pub enum ScalerError {
    /// The centers of a parameter record do not match its feature count.
    CenterLength { expected: usize, actual: usize },
    /// The scales of a parameter record do not match its feature count.
    ScaleLength { expected: usize, actual: usize },
    /// A single row to transform does not have one value per feature.
    RowLength { expected: usize, actual: usize },
}

/// A robust scaler: per feature, the center (median) and the scale
/// (interquartile range, floored) of an affine normalization
/// `(x - center) / scale`. Both sequences always have one entry per feature.
pub struct RobustScaler<T> {
    center_: Vec<T>,
    scale_: Vec<T>,
}

/// What a load of a parameter record gives: the error for the first field
/// whose length differs from the declared feature count, or none.
pub open spec fn params_check(center_len: nat, scale_len: nat, n_features_in: nat) -> Option<
    ScalerError,
> {
    if center_len != n_features_in {
        Some(
            ScalerError::CenterLength {
                expected: n_features_in as usize,
                actual: center_len as usize,
            },
        )
    } else if scale_len != n_features_in {
        Some(
            ScalerError::ScaleLength { expected: n_features_in as usize, actual: scale_len as usize },
        )
    } else {
        None
    }
}

impl<T> RobustScaler<T> {
    /// The center of each feature, in feature order.
    pub closed spec fn centers(&self) -> Seq<T> {
        self.center_@
    }

    /// The scale of each feature, in feature order.
    pub closed spec fn scales(&self) -> Seq<T> {
        self.scale_@
    }

    /// The number of features: the shared length of centers and scales.
    pub open spec fn features(&self) -> nat {
        self.centers().len()
    }

    /// Centers and scales are index-aligned.
    pub open spec fn wf(&self) -> bool {
        self.centers().len() == self.scales().len()
    }

    /// An unfitted scaler, with no features.
    pub fn new() -> (r: Self)
        ensures
            r.wf(),
            r.centers() == Seq::<T>::empty(),
            r.scales() == Seq::<T>::empty(),
    {
        RobustScaler { center_: Vec::new(), scale_: Vec::new() }
    }

    /// The number of features the scaler was fitted or loaded with; zero
    /// before either.
    pub fn n_features(&self) -> (r: usize)
        ensures
            r == self.features(),
    {
        self.center_.len()
    }

    /// The centers, one per feature.
    pub fn center(&self) -> (r: &Vec<T>)
        ensures
            r@ == self.centers(),
    {
        &self.center_
    }

    /// The scales, one per feature.
    pub fn scale(&self) -> (r: &Vec<T>)
        ensures
            r@ == self.scales(),
    {
        &self.scale_
    }

    /// Replaces the parameters with those of a record exported by another
    /// toolkit, once both sequences are checked to hold `n_features_in`
    /// entries. On a mismatch the scaler is left as it was.
    pub fn load_params(&mut self, center: Vec<T>, scale: Vec<T>, n_features_in: usize) -> (r:
        Result<(), ScalerError>)
        requires
            old(self).wf(),
        ensures
            final(self).wf(),
            match params_check(center@.len(), scale@.len(), n_features_in as nat) {
                Some(e) => r == Err::<(), ScalerError>(e) && *final(self) == *old(self),
                None => r is Ok && final(self).centers() == center@ && final(self).scales()
                    == scale@,
            },
    {
        if center.len() != n_features_in {
            return Err(ScalerError::CenterLength { expected: n_features_in, actual: center.len() });
        }
        if scale.len() != n_features_in {
            return Err(ScalerError::ScaleLength { expected: n_features_in, actual: scale.len() });
        }
        self.center_ = center;
        self.scale_ = scale;
        Ok(())
    }

    /// Checks that a single row holds one value per feature.
    pub fn check_row_len(&self, len: usize) -> (r: Result<(), ScalerError>)
        ensures
            r == (if len as nat == self.features() {
                Ok::<(), ScalerError>(())
            } else {
                Err(ScalerError::RowLength { expected: self.features() as usize, actual: len })
            }),
    {
        let n = self.center_.len();
        if len == n {
            Ok(())
        } else {
            Err(ScalerError::RowLength { expected: n, actual: len })
        }
    }
}

impl<T: Copy> RobustScaler<T> {
    /// Replaces the whole fit at once with the per-feature statistics
    /// `(center, scale)`, in feature order.
    pub fn set_fitted(&mut self, stats: &Vec<(T, T)>)
        ensures
            final(self).wf(),
            final(self).features() == stats@.len(),
            forall|j: int|
                0 <= j < stats@.len() ==> final(self).centers()[j] == stats@[j].0
                    && final(self).scales()[j] == stats@[j].1,
    {
        let mut center: Vec<T> = Vec::new();
        let mut scale: Vec<T> = Vec::new();
        let mut i: usize = 0;
        while i < stats.len()
            invariant
                i <= stats@.len(),
                center@.len() == i,
                scale@.len() == i,
                forall|j: int| 0 <= j < i ==> center@[j] == stats@[j].0 && scale@[j] == stats@[j].1,
            decreases stats@.len() - i,
        {
            let (c, s) = stats[i];
            center.push(c);
            scale.push(s);
            i += 1;
        }
        self.center_ = center;
        self.scale_ = scale;
    }
}

} // verus!
