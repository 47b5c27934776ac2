//! What every monitored thing tells about itself.

use vstd::prelude::*;

verus! {

/// The kind, stable identity and short name of a sensed thing.
pub trait Sensor {
    spec fn type_name_view(&self) -> Seq<char>;

    spec fn id_view(&self) -> Seq<char>;

    spec fn name_view(&self) -> Seq<char>;

    fn get_type_name(&self) -> (r: &'static str)
        ensures
            r@ == self.type_name_view();

    /// The identity that responses about it carry.
    fn get_id(&self) -> (r: String)
        ensures
            r@ == self.id_view();

    fn get_name(&self) -> (r: String)
        ensures
            r@ == self.name_view();
}

} // verus!
