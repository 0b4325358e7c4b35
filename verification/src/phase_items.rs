use vstd::prelude::*;

verus! {

/// A sorted-phase render item for an isosurface: one visible instance
/// whose draw must run back-to-front.
///
/// `distance_key` is a monotone 32-bit encoding of the view distance
/// (plus the material's depth bias): the host maps the floating-point
/// distance to ordered bits, and every comparison here is on the bits.
/// `dynamic_offset`, when present, is always below `u32::MAX` — the
/// host-side binding encodes it in a non-max integer.
#[derive(Clone, Copy, Debug, PartialEq)]
pub struct TransmissiveIsosurface {
    pub distance_key: u32,
    pub pipeline: u64,
    pub entity: u64,
    pub draw_function: u64,
    pub batch_range: (u32, u32),
    pub dynamic_offset: Option<u32>,
}

impl TransmissiveIsosurface {
    pub fn entity(&self) -> (r: u64)
        ensures
            r == self.entity,
    {
        self.entity
    }

    /// Items sort ascending by this key.
    pub fn sort_key(&self) -> (r: u32)
        ensures
            r == self.distance_key,
    {
        self.distance_key
    }

    pub fn draw_function(&self) -> (r: u64)
        ensures
            r == self.draw_function,
    {
        self.draw_function
    }

    pub fn batch_range(&self) -> (r: (u32, u32))
        ensures
            r == self.batch_range,
    {
        self.batch_range
    }

    pub fn batch_range_mut(&mut self) -> (r: &mut (u32, u32))
        ensures
            *r == old(self).batch_range,
            final(self).distance_key == old(self).distance_key,
            final(self).pipeline == old(self).pipeline,
            final(self).entity == old(self).entity,
            final(self).draw_function == old(self).draw_function,
            final(self).dynamic_offset == old(self).dynamic_offset,
            final(self).batch_range == *final(r),
    {
        &mut self.batch_range
    }

    pub fn dynamic_offset(&self) -> (r: Option<u32>)
        ensures
            r == self.dynamic_offset,
    {
        self.dynamic_offset
    }

    pub fn dynamic_offset_mut(&mut self) -> (r: &mut Option<u32>)
        ensures
            *r == old(self).dynamic_offset,
            final(self).distance_key == old(self).distance_key,
            final(self).pipeline == old(self).pipeline,
            final(self).entity == old(self).entity,
            final(self).draw_function == old(self).draw_function,
            final(self).batch_range == old(self).batch_range,
            final(self).dynamic_offset == *final(r),
    {
        &mut self.dynamic_offset
    }

    /// Sort the phase back-to-front for drawing: ascending by distance
    /// key, keeping the multiset of items.
    pub fn sort(items: &mut Vec<TransmissiveIsosurface>)
        ensures
            final(items)@.len() == old(items)@.len(),
            final(items)@.to_multiset() == old(items)@.to_multiset(),
            forall|i: int, j: int|
                0 <= i < j < final(items)@.len() ==> final(items)@[i].distance_key <= final(
                    items
                )@[j].distance_key,
    {
        sort_by_distance_key(items);
    }
}

/// Relies on radsort::sort_by_key: a stable LSB radix sort that orders
/// the slice ascending by the extracted scalar key and keeps exactly the
/// same elements.  The key closure only picks the `distance_key` field.
#[verifier::external_body]
fn sort_by_distance_key(items: &mut Vec<TransmissiveIsosurface>)
    ensures
        final(items)@.len() == old(items)@.len(),
        final(items)@.to_multiset() == old(items)@.to_multiset(),
        forall|i: int, j: int|
            0 <= i < j < final(items)@.len() ==> final(items)@[i].distance_key <= final(
                items
            )@[j].distance_key,
{
    radsort::sort_by_key(items.as_mut_slice(), |item: &TransmissiveIsosurface| item.distance_key);
}

} // verus!
