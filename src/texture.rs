use vstd::prelude::*;

verus! {

/// An RGB565 image held row by row.
pub struct Texture {
    width: usize,
    height: usize,
    data: Vec<u16>,
}

impl Texture {
    pub closed spec fn spec_width(&self) -> nat {
        self.width as nat
    }

    pub closed spec fn spec_height(&self) -> nat {
        self.height as nat
    }

    pub closed spec fn spec_data(&self) -> Seq<u16> {
        self.data@
    }

    /// The pixel count matches the dimensions.
    pub closed spec fn wf(&self) -> bool {
        self.width * self.height == self.data@.len()
    }

    pub fn new(width: usize, height: usize, data: Vec<u16>) -> (r: Self)
        requires
            width * height == data@.len(),
        ensures
            r.wf(),
            r.spec_width() == width,
            r.spec_height() == height,
            r.spec_data() == data@,
    {
        Texture { height, width, data }
    }

    pub fn height(&self) -> (r: usize)
        ensures
            r == self.spec_height(),
    {
        self.height
    }

    pub fn width(&self) -> (r: usize)
        ensures
            r == self.spec_width(),
    {
        self.width
    }

    pub fn data(&self) -> (r: &[u16])
        ensures
            r@ == self.spec_data(),
    {
        self.data.as_slice()
    }
}

} // verus!
