//! Static geometry of the obstacle variants and the playable characters.
use vstd::prelude::*;

verus! {

/// Micro-units in one world unit.
pub const UNIT: i64 = 1_000_000;

/// Thousandths in one whole factor.
pub const PERMILLE: i32 = 1000;

/// Width of the obstacle sprite before scaling, in world units.
pub const PIPE_BASE_WIDTH: i64 = 52;

/// Height of the obstacle sprite before scaling, in world units.
pub const PIPE_BASE_HEIGHT: i64 = 320;

/// World units that a vertical segment offset factor of one whole stands for.
pub const SEGMENT_Y_SPAN: i64 = 160;

/// Obstacle variants.
#[derive(Debug, Clone, Copy, PartialEq, Eq, Structural)]
pub enum PipeType {
    Green,
    Red,
}

/// A rectangular part of an obstacle's collision shape: its offset from the
/// collision centre (horizontal in base widths, vertical in half heights)
/// and its size, all in thousandths.
#[derive(Debug, Clone, Copy, PartialEq, Eq, Structural)]
pub struct CollisionSegment {
    pub offset_x: i32,
    pub offset_y: i32,
    pub width_factor: i32,
    pub height_factor: i32,
}

/// Everything the collision test reads of an obstacle variant.
#[derive(Debug)]
pub struct PipeGeometry {
    /// Visual scale, in thousandths.
    pub scale: i32,
    /// Collision box width relative to the base width, in thousandths.
    pub width_factor: i32,
    /// Collision box height relative to the base height, in thousandths.
    pub height_factor: i32,
    /// Offset of the collision centre from the sprite centre, in micro-units
    /// before scaling.
    pub offset_x: i64,
    pub offset_y: i64,
    /// Whether the segments, not the single box, decide a hit.
    pub precise: bool,
    pub segments: Vec<CollisionSegment>,
}

impl PipeType {
    pub open spec fn spec_scale(self) -> i32 {
        1000
    }

    pub open spec fn spec_collision_bounds(self) -> (i32, i32) {
        (800, 900)
    }

    pub open spec fn spec_collision_segments(self) -> Seq<CollisionSegment> {
        seq![CollisionSegment { offset_x: 0, offset_y: 0, width_factor: 800, height_factor: 900 }]
    }

    pub open spec fn spec_collision_offset(self) -> (i64, i64) {
        (0, 0)
    }

    pub open spec fn spec_use_precise_collision(self) -> bool {
        false
    }

    pub open spec fn spec_texture_path(self) -> Seq<char> {
        match self {
            PipeType::Green => "pipes/pipe-green.png"@,
            PipeType::Red => "pipes/pipe-red.png"@,
        }
    }

    pub fn get_texture_path(&self) -> (r: &'static str)
        ensures
            r@ == self.spec_texture_path(),
    {
        match self {
            PipeType::Green => "pipes/pipe-green.png",
            PipeType::Red => "pipes/pipe-red.png",
        }
    }

    pub fn get_scale(&self) -> (r: i32)
        ensures
            r == self.spec_scale(),
    {
        1000
    }

    /// Width and height factor of the collision box.
    pub fn get_collision_bounds(&self) -> (r: (i32, i32))
        ensures
            r == self.spec_collision_bounds(),
    {
        (800, 900)
    }

    pub fn get_collision_segments(&self) -> (r: Vec<CollisionSegment>)
        ensures
            r@ == self.spec_collision_segments(),
    {
        let r = vec![CollisionSegment { offset_x: 0, offset_y: 0, width_factor: 800, height_factor: 900 }];
        assert(r@ =~= self.spec_collision_segments());
        r
    }

    pub fn get_collision_offset(&self) -> (r: (i64, i64))
        ensures
            r == self.spec_collision_offset(),
    {
        (0, 0)
    }

    pub fn use_precise_collision(&self) -> (r: bool)
        ensures
            r == self.spec_use_precise_collision(),
    {
        false
    }

    pub open spec fn spec_all_types() -> Seq<PipeType> {
        seq![PipeType::Green, PipeType::Red]
    }

    pub fn all_types() -> (r: [PipeType; 2])
        ensures
            r@ == Self::spec_all_types(),
    {
        let r = [PipeType::Green, PipeType::Red];
        assert(r@ =~= Self::spec_all_types());
        r
    }

    pub open spec fn spec_geometry(self) -> PipeGeometryView {
        PipeGeometryView {
            scale: self.spec_scale(),
            width_factor: self.spec_collision_bounds().0,
            height_factor: self.spec_collision_bounds().1,
            offset_x: self.spec_collision_offset().0,
            offset_y: self.spec_collision_offset().1,
            precise: self.spec_use_precise_collision(),
            segments: self.spec_collision_segments(),
        }
    }

    /// The collision geometry of this variant, gathered in one value.
    pub fn geometry(&self) -> (r: PipeGeometry)
        ensures
            r@ == self.spec_geometry(),
    {
        let (width_factor, height_factor) = self.get_collision_bounds();
        let (offset_x, offset_y) = self.get_collision_offset();
        PipeGeometry {
            scale: self.get_scale(),
            width_factor,
            height_factor,
            offset_x,
            offset_y,
            precise: self.use_precise_collision(),
            segments: self.get_collision_segments(),
        }
    }
}

/// Playable characters.
#[derive(Debug, Clone, Copy, PartialEq, Eq, Structural)]
pub enum BirdCharacter {
    YellowBird,
    RedBird,
    BlueBird,
    WuSaQi,
    JiYi,
    XiaoBa,
}

impl BirdCharacter {
    /// Position of the character in the selection cycle.
    pub open spec fn spec_index(self) -> int {
        match self {
            BirdCharacter::YellowBird => 0,
            BirdCharacter::RedBird => 1,
            BirdCharacter::BlueBird => 2,
            BirdCharacter::WuSaQi => 3,
            BirdCharacter::JiYi => 4,
            BirdCharacter::XiaoBa => 5,
        }
    }

    pub open spec fn spec_all_characters() -> Seq<BirdCharacter> {
        seq![
            BirdCharacter::YellowBird,
            BirdCharacter::RedBird,
            BirdCharacter::BlueBird,
            BirdCharacter::WuSaQi,
            BirdCharacter::JiYi,
            BirdCharacter::XiaoBa,
        ]
    }

    pub open spec fn spec_texture_path(self) -> Seq<char> {
        match self {
            BirdCharacter::YellowBird => "birds/yellowbird-midflap.png"@,
            BirdCharacter::RedBird => "birds/redbird-midflap.png"@,
            BirdCharacter::BlueBird => "birds/bluebird-midflap.png"@,
            BirdCharacter::WuSaQi => "birds/乌撒奇.png"@,
            BirdCharacter::JiYi => "birds/吉伊.png"@,
            BirdCharacter::XiaoBa => "birds/小八.png"@,
        }
    }

    pub open spec fn spec_name(self) -> Seq<char> {
        match self {
            BirdCharacter::YellowBird => "Yellow Bird"@,
            BirdCharacter::RedBird => "Red Bird"@,
            BirdCharacter::BlueBird => "Blue Bird"@,
            BirdCharacter::WuSaQi => "乌撒奇"@,
            BirdCharacter::JiYi => "吉伊"@,
            BirdCharacter::XiaoBa => "小八"@,
        }
    }

    /// Sprite scale in thousandths: the three classic birds are drawn large,
    /// the other characters small.
    pub open spec fn spec_scale(self) -> i32 {
        match self {
            BirdCharacter::YellowBird | BirdCharacter::RedBird | BirdCharacter::BlueBird => 2000,
            _ => 300,
        }
    }

    /// Collision radius in micro-units: twelve units for the classic birds,
    /// ten for the others.
    pub open spec fn spec_collision_radius(self) -> int {
        match self {
            BirdCharacter::YellowBird | BirdCharacter::RedBird | BirdCharacter::BlueBird => 12 * UNIT,
            _ => 10 * UNIT,
        }
    }

    pub fn get_texture_path(&self) -> (r: &'static str)
        ensures
            r@ == self.spec_texture_path(),
    {
        match self {
            BirdCharacter::YellowBird => "birds/yellowbird-midflap.png",
            BirdCharacter::RedBird => "birds/redbird-midflap.png",
            BirdCharacter::BlueBird => "birds/bluebird-midflap.png",
            BirdCharacter::WuSaQi => "birds/乌撒奇.png",
            BirdCharacter::JiYi => "birds/吉伊.png",
            BirdCharacter::XiaoBa => "birds/小八.png",
        }
    }

    pub fn get_name(&self) -> (r: &'static str)
        ensures
            r@ == self.spec_name(),
    {
        match self {
            BirdCharacter::YellowBird => "Yellow Bird",
            BirdCharacter::RedBird => "Red Bird",
            BirdCharacter::BlueBird => "Blue Bird",
            BirdCharacter::WuSaQi => "乌撒奇",
            BirdCharacter::JiYi => "吉伊",
            BirdCharacter::XiaoBa => "小八",
        }
    }

    pub fn get_scale(&self) -> (r: i32)
        ensures
            r == self.spec_scale(),
    {
        match self {
            BirdCharacter::YellowBird | BirdCharacter::RedBird | BirdCharacter::BlueBird => 2000,
            _ => 300,
        }
    }

    /// The character before this one in the selection cycle.
    pub fn previous(&self) -> (r: BirdCharacter)
        ensures
            r.spec_index() == (self.spec_index() + 5) % 6,
    {
        match self {
            BirdCharacter::YellowBird => BirdCharacter::XiaoBa,
            BirdCharacter::RedBird => BirdCharacter::YellowBird,
            BirdCharacter::BlueBird => BirdCharacter::RedBird,
            BirdCharacter::WuSaQi => BirdCharacter::BlueBird,
            BirdCharacter::JiYi => BirdCharacter::WuSaQi,
            BirdCharacter::XiaoBa => BirdCharacter::JiYi,
        }
    }

    /// The character after this one in the selection cycle.
    pub fn next(&self) -> (r: BirdCharacter)
        ensures
            r.spec_index() == (self.spec_index() + 1) % 6,
    {
        match self {
            BirdCharacter::YellowBird => BirdCharacter::RedBird,
            BirdCharacter::RedBird => BirdCharacter::BlueBird,
            BirdCharacter::BlueBird => BirdCharacter::WuSaQi,
            BirdCharacter::WuSaQi => BirdCharacter::JiYi,
            BirdCharacter::JiYi => BirdCharacter::XiaoBa,
            BirdCharacter::XiaoBa => BirdCharacter::YellowBird,
        }
    }

    pub fn all_characters() -> (r: [BirdCharacter; 6])
        ensures
            r@ == Self::spec_all_characters(),
    {
        let r = [
            BirdCharacter::YellowBird,
            BirdCharacter::RedBird,
            BirdCharacter::BlueBird,
            BirdCharacter::WuSaQi,
            BirdCharacter::JiYi,
            BirdCharacter::XiaoBa,
        ];
        assert(r@ =~= Self::spec_all_characters());
        r
    }

    /// Position of the character in the selection cycle, which is also its
    /// place in [`BirdCharacter::all_characters`].
    pub fn index(&self) -> (r: usize)
        ensures
            r == self.spec_index(),
            Self::spec_all_characters()[r as int] == *self,
    {
        match self {
            BirdCharacter::YellowBird => 0,
            BirdCharacter::RedBird => 1,
            BirdCharacter::BlueBird => 2,
            BirdCharacter::WuSaQi => 3,
            BirdCharacter::JiYi => 4,
            BirdCharacter::XiaoBa => 5,
        }
    }

    pub fn get_collision_radius(&self) -> (r: i64)
        ensures
            r == self.spec_collision_radius(),
    {
        match self {
            BirdCharacter::YellowBird | BirdCharacter::RedBird | BirdCharacter::BlueBird => 12 * UNIT,
            _ => 10 * UNIT,
        }
    }
}

/// The mathematical content of a [`PipeGeometry`].
pub struct PipeGeometryView {
    pub scale: i32,
    pub width_factor: i32,
    pub height_factor: i32,
    pub offset_x: i64,
    pub offset_y: i64,
    pub precise: bool,
    pub segments: Seq<CollisionSegment>,
}

impl View for PipeGeometry {
    type V = PipeGeometryView;

    open spec fn view(&self) -> PipeGeometryView {
        PipeGeometryView {
            scale: self.scale,
            width_factor: self.width_factor,
            height_factor: self.height_factor,
            offset_x: self.offset_x,
            offset_y: self.offset_y,
            precise: self.precise,
            segments: self.segments@,
        }
    }
}

} // verus!
