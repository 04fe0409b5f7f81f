use crate::color::Color;
use crate::geo::Rect;
use crate::ratio::Ratio;
use vstd::prelude::*;

verus! {

/// The number of 32-bit components in an instance record on the GPU.
pub const INSTANCE_COMPONENTS: usize = 13;

/// The size in bytes of one instance record on the GPU.
pub const INSTANCE_STRIDE: u64 = 52;

/// One attribute of the instance record as the vertex shader reads it.
#[derive(Clone, Copy, Debug, PartialEq, Eq, Structural)]
pub struct VertexAttribute {
    /// The shader input location.
    pub location: u32,
    /// The byte offset within the record.
    pub offset: u64,
    /// The number of 32-bit float components.
    pub components: u32,
}

/// The attributes in record order: source upper-left, source lower-right,
/// destination upper-left, destination lower-right (two components each),
/// rotation (one), color factor (four).
pub open spec fn layout_spec() -> Seq<VertexAttribute> {
    seq![
        VertexAttribute { location: 0, offset: 0, components: 2 },
        VertexAttribute { location: 1, offset: 8, components: 2 },
        VertexAttribute { location: 2, offset: 16, components: 2 },
        VertexAttribute { location: 3, offset: 24, components: 2 },
        VertexAttribute { location: 4, offset: 32, components: 1 },
        VertexAttribute { location: 5, offset: 36, components: 4 },
    ]
}

/// The per-sprite record: the source rectangle cropped from the sheet
/// (sheet coordinates in `[0, 1]`), the destination rectangle, a clockwise
/// rotation in radians about the destination's center, and a color factor
/// multiplied into the sampled texture color.
#[derive(Clone, Copy, Debug)]
pub struct Instance {
    src: Rect,
    dst: Rect,
    rotate: Ratio,
    color_factor: Color,
}

impl View for Instance {
    /// `(src, dst, rotate, color_factor)`
    type V = (Rect, Rect, Ratio, Color);

    closed spec fn view(&self) -> (Rect, Rect, Ratio, Color) {
        (self.src, self.dst, self.rotate, self.color_factor)
    }
}

/// The full unit square `[0, 0, 1, 1]`.
pub open spec fn is_unit_square(r: Rect) -> bool {
    r@.0@ == (0int, 1int) && r@.1@ == (0int, 1int) && r@.2@ == (1int, 1int) && r@.3@ == (1int, 1int)
}

/// The unit square.
pub fn unit_square() -> (r: Rect)
    ensures
        is_unit_square(r),
{
    Rect::from_ordered(Ratio::zero(), Ratio::zero(), Ratio::one(), Ratio::one())
}

/// Whether a color is opaque white.
pub open spec fn is_white(c: Color) -> bool {
    c@.len() == 4 && forall|i: int| 0 <= i < 4 ==> (#[trigger] c@[i])@ == (1int, 1int)
}

impl Instance {
    /// A builder starting from the full source sheet, the unit destination
    /// square, no rotation and a white color factor.
    pub fn builder() -> (b: InstanceBuilder)
        ensures
            is_unit_square(b.src),
            is_unit_square(b.dest),
            b.rotate@ == (0int, 1int),
            is_white(b.color_factor),
    {
        InstanceBuilder {
            src: unit_square(),
            dest: unit_square(),
            rotate: Ratio::zero(),
            color_factor: Color::white(),
        }
    }

    pub fn new(src: Rect, dst: Rect, rotate: Ratio, color_factor: Color) -> (r: Instance)
        ensures
            r@ == (src, dst, rotate, color_factor),
    {
        Instance { src, dst, rotate, color_factor }
    }

    pub fn src(&self) -> (r: Rect)
        ensures
            r == self@.0,
    {
        self.src
    }

    pub fn set_src(&mut self, rect: Rect)
        ensures
            final(self)@ == (rect, old(self)@.1, old(self)@.2, old(self)@.3),
    {
        self.src = rect;
    }

    pub fn dest(&self) -> (r: Rect)
        ensures
            r == self@.1,
    {
        self.dst
    }

    pub fn set_dest(&mut self, rect: Rect)
        ensures
            final(self)@ == (old(self)@.0, rect, old(self)@.2, old(self)@.3),
    {
        self.dst = rect;
    }

    pub fn rotation(&self) -> (r: Ratio)
        ensures
            r == self@.2,
    {
        self.rotate
    }

    pub fn set_rotation(&mut self, rotate: Ratio)
        ensures
            final(self)@ == (old(self)@.0, old(self)@.1, rotate, old(self)@.3),
    {
        self.rotate = rotate;
    }

    pub fn color_factor(&self) -> (r: Color)
        ensures
            r == self@.3,
    {
        self.color_factor
    }

    pub fn set_color_factor(&mut self, color_factor: Color)
        ensures
            final(self)@ == (old(self)@.0, old(self)@.1, old(self)@.2, color_factor),
    {
        self.color_factor = color_factor;
    }

    /// The record's thirteen components in GPU order: source upper-left x
    /// and y, source lower-right x and y, the same for the destination, the
    /// rotation, then the four color channels.
    pub fn components(&self) -> (r: Vec<Ratio>)
        ensures
            r@ == seq![
                self@.0@.0, self@.0@.1, self@.0@.2, self@.0@.3,
                self@.1@.0, self@.1@.1, self@.1@.2, self@.1@.3,
                self@.2,
                self@.3@[0], self@.3@[1], self@.3@[2], self@.3@[3],
            ],
            r@.len() == INSTANCE_COMPONENTS,
    {
        let su = self.src.upper_left();
        let sl = self.src.lower_right();
        let du = self.dst.upper_left();
        let dl = self.dst.lower_right();
        let c = self.color_factor.to_array();
        proof {
            assert(c@.len() == 4);
        }
        let r = vec![su[0], su[1], sl[0], sl[1], du[0], du[1], dl[0], dl[1], self.rotate, c[0], c[1], c[2], c[3]];
        proof {
            assert(r@ =~= seq![
                self@.0@.0, self@.0@.1, self@.0@.2, self@.0@.3,
                self@.1@.0, self@.1@.1, self@.1@.2, self@.1@.3,
                self@.2,
                self@.3@[0], self@.3@[1], self@.3@[2], self@.3@[3],
            ]);
        }
        r
    }

    /// The vertex attributes of the instance record.
    pub fn attribute_layout() -> (r: Vec<VertexAttribute>)
        ensures
            r@ == layout_spec(),
    {
        let r = vec![
            VertexAttribute { location: 0, offset: 0, components: 2 },
            VertexAttribute { location: 1, offset: 8, components: 2 },
            VertexAttribute { location: 2, offset: 16, components: 2 },
            VertexAttribute { location: 3, offset: 24, components: 2 },
            VertexAttribute { location: 4, offset: 32, components: 1 },
            VertexAttribute { location: 5, offset: 36, components: 4 },
        ];
        assert(r@ =~= layout_spec());
        r
    }
}

/// The attributes are packed: each starts where the previous one ends, the
/// record holds thirteen 4-byte components, and the last one ends at the
/// stride.
pub proof fn lemma_layout_packed()
    ensures
        layout_spec().len() == 6,
        layout_spec()[0].offset == 0,
        forall|i: int| 0 < i < 6 ==> (#[trigger] layout_spec()[i]).offset
            == layout_spec()[i - 1].offset + 4 * layout_spec()[i - 1].components,
        layout_spec()[5].offset + 4 * layout_spec()[5].components == INSTANCE_STRIDE,
        INSTANCE_STRIDE == 4 * INSTANCE_COMPONENTS,
{
}

/// Builds an `Instance` field by field.
#[derive(Clone, Copy, Debug)]
pub struct InstanceBuilder {
    pub src: Rect,
    pub dest: Rect,
    pub rotate: Ratio,
    pub color_factor: Color,
}

impl InstanceBuilder {
    pub fn build(self) -> (r: Instance)
        ensures
            r@ == (self.src, self.dest, self.rotate, self.color_factor),
    {
        Instance::new(self.src, self.dest, self.rotate, self.color_factor)
    }

    pub fn src(self, src: Rect) -> (r: Self)
        ensures
            r == (InstanceBuilder { src, ..self }),
    {
        InstanceBuilder { src, ..self }
    }

    pub fn dest(self, dest: Rect) -> (r: Self)
        ensures
            r == (InstanceBuilder { dest, ..self }),
    {
        InstanceBuilder { dest, ..self }
    }

    pub fn rotate(self, rotate: Ratio) -> (r: Self)
        ensures
            r == (InstanceBuilder { rotate, ..self }),
    {
        InstanceBuilder { rotate, ..self }
    }

    /// Sets the color factor, which is multiplied with the sampled texture
    /// color.
    pub fn color_factor(self, color_factor: Color) -> (r: Self)
        ensures
            r == (InstanceBuilder { color_factor, ..self }),
    {
        InstanceBuilder { color_factor, ..self }
    }
}

} // verus!
