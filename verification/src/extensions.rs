//! Conversions between the shapes that one value takes in different layers.

use vstd::pervasive::cloned;
use vstd::prelude::*;

verus! {

/// Conversion of a value into its counterpart in another layer.
pub trait MappingExt<Res>: Sized {
    fn object_map(self) -> Res;
}

/// Conversion that leaves the source in place.
pub trait MappingCloneExt<T> {
    fn object_map_clone(&self) -> T;
}

impl<Source, Res> MappingCloneExt<Res> for Source where Source: Clone + MappingExt<Res> {
    /// Maps a clone of `self`.
    fn object_map_clone(&self) -> (r: Res)
        ensures
            exists|copy: Source|
                cloned(*self, copy) && call_ensures(
                    <Source as MappingExt<Res>>::object_map,
                    (copy,),
                    r,
                ),
    {
        let copy = self.clone();
        let r = copy.object_map();
        assert(cloned(*self, copy) && call_ensures(
            <Source as MappingExt<Res>>::object_map,
            (copy,),
            r,
        ));
        r
    }
}

/// Conversion that needs one more value than the source holds.
pub trait MappingExtraField1Ext<Res, Extra>: Sized {
    fn object_map_field(self, extra: Extra) -> Res;
}

/// Conversion with one more value that leaves both in place.
pub trait MappingCloneExtraField1Ext<Res, Extra> {
    fn object_map_field_clone(&self, extra: &Extra) -> Res;
}

impl<Source, Res, Extra> MappingCloneExtraField1Ext<Res, Extra> for Source where
    Source: Clone + MappingExtraField1Ext<Res, Extra>,
    Extra: Clone,
 {
    /// Maps a clone of `self` with a clone of `extra`.
    fn object_map_field_clone(&self, extra: &Extra) -> (r: Res)
        ensures
            exists|copy: Source, extra_copy: Extra|
                cloned(*self, copy) && cloned(*extra, extra_copy) && call_ensures(
                    <Source as MappingExtraField1Ext<Res, Extra>>::object_map_field,
                    (copy, extra_copy),
                    r,
                ),
    {
        let copy = self.clone();
        let extra_copy = extra.clone();
        let r = copy.object_map_field(extra_copy);
        assert(cloned(*self, copy) && cloned(*extra, extra_copy) && call_ensures(
            <Source as MappingExtraField1Ext<Res, Extra>>::object_map_field,
            (copy, extra_copy),
            r,
        ));
        r
    }
}

} // verus!
