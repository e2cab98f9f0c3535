use vstd::prelude::*;

verus! {

/// An extent in whole units.
#[derive(Clone, Copy, Debug, PartialEq, Eq, Structural)]
pub struct Size {
    pub width: usize,
    pub height: usize,
}

/// A position in whole units. Coordinates may be negative.
#[derive(Clone, Copy, Debug, PartialEq, Eq, Structural)]
pub struct Point {
    pub x: i64,
    pub y: i64,
}

/// An axis-aligned rectangle: the corner nearest the origin, and an extent.
#[derive(Clone, Copy, Debug, PartialEq, Eq, Structural)]
pub struct Rect {
    pub origin: Point,
    pub size: Size,
}

/// Where an interval of length `inner` starts when it is centered in
/// `[0, outer)`: half the slack, rounded down. Negative when `inner` is the
/// longer one.
pub open spec fn centered_start(outer: int, inner: int) -> int {
    (outer - inner) / 2
}

/// Computes [`centered_start`] without leaving the range of `i64`.
pub fn center_offset(outer: usize, inner: usize) -> (start: i64)
    ensures
        start as int == centered_start(outer as int, inner as int),
{
    if outer >= inner {
        let slack: usize = outer - inner;
        (slack / 2) as i64
    } else {
        let excess: usize = inner - outer;
        let half: i64 = ((excess - 1) / 2) as i64;
        -half - 1
    }
}

impl Size {
    pub fn new(width: usize, height: usize) -> (size: Size)
        ensures
            size == (Size { width, height }),
    {
        Size { width, height }
    }

    /// Whether this extent is no larger than `other` in either direction.
    pub open spec fn fits_in(self, other: Size) -> bool {
        self.width <= other.width && self.height <= other.height
    }

    /// Executable form of [`Size::fits_in`].
    pub fn fits_within(&self, other: &Size) -> (fits: bool)
        ensures
            fits == self.fits_in(*other),
    {
        self.width <= other.width && self.height <= other.height
    }
}

impl Point {
    pub fn new(x: i64, y: i64) -> (point: Point)
        ensures
            point == (Point { x, y }),
    {
        Point { x, y }
    }
}

impl Rect {
    pub fn new(origin: Point, size: Size) -> (rect: Rect)
        ensures
            rect == (Rect { origin, size }),
    {
        Rect { origin, size }
    }

    /// The rectangle of the given extent that is centered in `bounds`.
    pub open spec fn centered(bounds: Size, extent: Size) -> Rect {
        Rect {
            origin: Point {
                x: centered_start(bounds.width as int, extent.width as int) as i64,
                y: centered_start(bounds.height as int, extent.height as int) as i64,
            },
            size: extent,
        }
    }

    /// The rectangle of the given extent whose corner is the origin.
    pub open spec fn anchored(extent: Size) -> Rect {
        Rect { origin: Point { x: 0, y: 0 }, size: extent }
    }

    /// Whether the rectangle lies inside `[0, bounds.width) x [0, bounds.height)`.
    pub open spec fn within(self, bounds: Size) -> bool {
        &&& 0 <= self.origin.x
        &&& 0 <= self.origin.y
        &&& self.origin.x + self.size.width <= bounds.width
        &&& self.origin.y + self.size.height <= bounds.height
    }

    /// Centers a rectangle of the given extent in `bounds`. Nothing is scaled:
    /// the extent is kept as it is, also where it is larger than the bounds.
    pub fn centered_in(bounds: &Size, extent: &Size) -> (rect: Rect)
        ensures
            rect == Rect::centered(*bounds, *extent),
    {
        Rect {
            origin: Point {
                x: center_offset(bounds.width, extent.width),
                y: center_offset(bounds.height, extent.height),
            },
            size: *extent,
        }
    }

    /// A rectangle of the given extent at the origin.
    pub fn at_origin(extent: &Size) -> (rect: Rect)
        ensures
            rect == Rect::anchored(*extent),
    {
        Rect { origin: Point { x: 0, y: 0 }, size: *extent }
    }

    /// Executable form of [`Rect::within`].
    pub fn lies_within(&self, bounds: &Size) -> (inside: bool)
        ensures
            inside == self.within(*bounds),
    {
        if self.origin.x < 0 || self.origin.y < 0 {
            return false;
        }
        if self.size.width > bounds.width || self.size.height > bounds.height {
            return false;
        }
        let room_x: usize = bounds.width - self.size.width;
        let room_y: usize = bounds.height - self.size.height;
        (self.origin.x as u64) <= (room_x as u64) && (self.origin.y as u64) <= (room_y as u64)
    }
}

/// A centered rectangle that fits its bounds lies inside them, and the space
/// left over on either side of it differs by at most one unit: by none where
/// the slack is even.
pub proof fn lemma_centered_is_centered(bounds: Size, extent: Size)
    requires
        extent.fits_in(bounds),
    ensures
        Rect::centered(bounds, extent).size == extent,
        Rect::centered(bounds, extent).within(bounds),
        ({
            let r = Rect::centered(bounds, extent);
            let left = r.origin.x as int;
            let right = bounds.width - (r.origin.x + extent.width);
            let top = r.origin.y as int;
            let bottom = bounds.height - (r.origin.y + extent.height);
            &&& left <= right <= left + 1
            &&& top <= bottom <= top + 1
            &&& (bounds.width - extent.width) % 2 == 0 ==> left == right
            &&& (bounds.height - extent.height) % 2 == 0 ==> top == bottom
        }),
{
}

} // verus!
