//! The triangles of a level model, as the physics engine takes them.

use vstd::prelude::*;

verus! {

/// The triangle list of a mesh: its 16-bit index buffer read three indices
/// at a time, each widened to 32 bits. A trailing group of fewer than three
/// indices makes no triangle.
pub fn triangle_list(index: &Vec<u16>) -> (list: Vec<[u32; 3]>)
    ensures
        list@.len() == index@.len() / 3,
        forall|t: int| 0 <= t < list@.len() ==> (#[trigger] list@[t])@ == seq![
            index@[3 * t] as u32,
            index@[3 * t + 1] as u32,
            index@[3 * t + 2] as u32,
        ],
{
    let mut list: Vec<[u32; 3]> = Vec::new();
    let length: usize = index.len();
    let count: usize = length / 3;
    let mut x: usize = 0;
    while x < count
        invariant
            length == index@.len(),
            count == index@.len() / 3,
            x <= count,
            list@.len() == x,
            forall|t: int| 0 <= t < x ==> (#[trigger] list@[t])@ == seq![
                index@[3 * t] as u32,
                index@[3 * t + 1] as u32,
                index@[3 * t + 2] as u32,
            ],
        decreases count - x,
    {
        assert(x * 3 + 2 < index@.len()) by (nonlinear_arith)
            requires
                x < count,
                count == index@.len() / 3,
        ;
        let triangle: [u32; 3] = [index[x * 3] as u32, index[x * 3 + 1] as u32, index[x * 3 + 2] as u32];
        list.push(triangle);
        x += 1;
    }
    list
}

} // verus!
