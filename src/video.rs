//! Video pages, page pointers and the polygon rasterizer.
use vstd::prelude::*;

use crate::memory::{Buffer, Resource};

verus! {

pub const SCREEN_W: usize = 320;
pub const SCREEN_H: usize = 200;
pub const PAGE_SIZE: usize = 64000;
pub const NUM_PAGES: usize = 4;
pub const MAX_POINTS: usize = 50;
pub const PALETTE_BYTES: usize = 32;
/// How deep polygon hierarchies may nest before the data is taken as corrupt.
pub const MAX_HIERARCHY_DEPTH: u32 = 16;

/// A screen position.
#[derive(Clone, Copy, Debug, PartialEq, Eq)]
pub struct Point {
    pub x: i16,
    pub y: i16,
}

/// A decoded polygon: its bounding box and its outline, already scaled by the zoom.
pub struct Polygon {
    pub bbw: u32,
    pub bbh: u32,
    pub points: Vec<(i32, i32)>,
}

/// One page of pixels, one byte each, `SCREEN_W` by `SCREEN_H`, row by row.
#[derive(Clone, Debug)]
pub struct Page {
    pub data: Vec<u8>,
}

/// The 32 raw bytes of a palette: 16 big-endian words `0x0RGB`.
#[derive(Clone, Debug)]
pub struct Palette {
    pub data: Vec<u8>,
}

/// A string the script asked to show, for the text layer to render.
#[derive(Clone, Copy, Debug, PartialEq, Eq)]
pub struct TextRequest {
    pub string_id: u16,
    pub x: u16,
    pub y: u16,
    pub color: u16,
}

/// Conditions under which polygon data cannot be drawn: the data is corrupt.
#[derive(Clone, Copy, Debug, PartialEq, Eq)]
pub enum VideoError {
    /// A vertex count that is odd or not below `MAX_POINTS`.
    BadVertexCount(u8),
    /// Polygon data that runs past the end of the arena.
    DataOutOfRange,
    /// A polygon hierarchy nested deeper than `MAX_HIERARCHY_DEPTH`.
    HierarchyTooDeep,
}

/// The four pages, the three page pointers (draw target and the pages that
/// ids 0xFE and 0xFF stand for), a palette waiting for the next present,
/// and the strings asked for since the host last took them.
pub struct Video {
    pub pages: Vec<Page>,
    pub cur_page_ptr1: usize,
    pub cur_page_ptr2: usize,
    pub cur_page_ptr3: usize,
    pub palette_requested: Option<Palette>,
    pub text_requests: Vec<TextRequest>,
}

/// Pixel column of page index `i`.
pub open spec fn col(i: int) -> int {
    i % (SCREEN_W as int)
}

/// Pixel row of page index `i`.
pub open spec fn row(i: int) -> int {
    i / (SCREEN_W as int)
}

/// The page that a script page id names: 0..3 directly, 0xFE and 0xFF through
/// the second and third pointer, anything else page 0.
pub open spec fn page_index(p2: usize, p3: usize, id: u8) -> usize {
    if id <= 3 {
        id as usize
    } else if id == 0xfe {
        p2
    } else if id == 0xff {
        p3
    } else {
        0
    }
}

/// A 4-bit colour doubled into both nibbles of a byte.
pub open spec fn packed_color(c: u8) -> u8 {
    ((c as int * 16) % 256 + c as int % 16) as u8
}

/// A byte coordinate scaled by `zoom`, where 64 is 1:1.
pub open spec fn scale(b: u8, zoom: u16) -> int {
    (b as int * zoom as int) / 64
}

impl Page {
    pub open spec fn wf(&self) -> bool {
        self.data@.len() == PAGE_SIZE
    }

    /// A page of colour 0.
    pub fn new() -> (r: Page)
        ensures
            r.wf(),
            forall|i: int| 0 <= i < PAGE_SIZE ==> r.data@[i] == 0,
    {
        let mut data: Vec<u8> = Vec::new();
        while data.len() < PAGE_SIZE
            invariant
                data@.len() <= PAGE_SIZE,
                forall|i: int| 0 <= i < data@.len() ==> data@[i] == 0,
            decreases PAGE_SIZE - data@.len(),
        {
            data.push(0);
        }
        Page { data }
    }
}

impl Palette {
    pub open spec fn wf(&self) -> bool {
        self.data@.len() == PALETTE_BYTES
    }

    /// Copies the 32 bytes of a palette from `mem` at `start`.
    pub fn from_bytes(mem: &Vec<u8>, start: usize) -> (r: Palette)
        requires
            start + PALETTE_BYTES <= mem@.len(),
        ensures
            r.wf(),
            r.data@ == mem@.subrange(start as int, start + PALETTE_BYTES),
    {
        let mut data: Vec<u8> = Vec::new();
        let mut k: usize = 0;
        let n: usize = mem.len();
        while k < PALETTE_BYTES
            invariant
                k <= PALETTE_BYTES,
                n == mem@.len(),
                start + PALETTE_BYTES <= mem@.len(),
                data@ == mem@.subrange(start as int, start + k),
            decreases PALETTE_BYTES - k,
        {
            data.push(mem[start + k]);
            k = k + 1;
            assert(data@ =~= mem@.subrange(start as int, start + k));
        }
        Palette { data }
    }

    /// Entry `i` as 8-bit red, green and blue: each 4-bit channel of the word
    /// `0x0RGB` times 17.
    pub fn entry(&self, i: usize) -> (r: (u8, u8, u8))
        requires
            self.wf(),
            i < 16,
        ensures
            r.0 == (self.data@[2 * i as int] as int % 16) * 17,
            r.1 == (self.data@[2 * i as int + 1] as int / 16) * 17,
            r.2 == (self.data@[2 * i as int + 1] as int % 16) * 17,
    {
        let hi = self.data[2 * i];
        let lo = self.data[2 * i + 1];
        ((hi % 16) * 17, (lo / 16) * 17, (lo % 16) * 17)
    }
}

impl Video {
    pub open spec fn wf(&self) -> bool {
        &&& self.pages@.len() == NUM_PAGES
        &&& forall|p: int| 0 <= p < NUM_PAGES ==> #[trigger] self.pages@[p].wf()
        &&& self.cur_page_ptr1 < NUM_PAGES
        &&& self.cur_page_ptr2 < NUM_PAGES
        &&& self.cur_page_ptr3 < NUM_PAGES
    }

    /// The pixels of page `p`.
    pub open spec fn page(&self, p: int) -> Seq<u8> {
        self.pages@[p].data@
    }

    pub open spec fn resolve(&self, id: u8) -> usize {
        page_index(self.cur_page_ptr2, self.cur_page_ptr3, id)
    }

    /// Four blank pages; the draw target and alias 0xFE on page 2, alias 0xFF on page 1.
    pub fn new() -> (r: Video)
        ensures
            r.wf(),
            r.cur_page_ptr1 == 2,
            r.cur_page_ptr2 == 2,
            r.cur_page_ptr3 == 1,
            r.palette_requested is None,
            r.text_requests@.len() == 0,
            forall|p: int, i: int| 0 <= p < NUM_PAGES && 0 <= i < PAGE_SIZE ==> r.page(p)[i] == 0,
    {
        let mut pages: Vec<Page> = Vec::new();
        while pages.len() < NUM_PAGES
            invariant
                pages@.len() <= NUM_PAGES,
                forall|p: int| 0 <= p < pages@.len() ==> #[trigger] pages@[p].wf(),
                forall|p: int, i: int| 0 <= p < pages@.len() && 0 <= i < PAGE_SIZE ==> pages@[p].data@[i] == 0,
            decreases NUM_PAGES - pages@.len(),
        {
            pages.push(Page::new());
        }
        Video {
            pages,
            cur_page_ptr1: 2,
            cur_page_ptr2: 2,
            cur_page_ptr3: 1,
            palette_requested: None,
            text_requests: Vec::new(),
        }
    }

    /// Resolves a script page id; an unknown id falls back to page 0.
    pub fn get_page_id(&self, page_id: u8) -> (r: usize)
        requires
            self.wf(),
        ensures
            r == self.resolve(page_id),
            r < NUM_PAGES,
    {
        if page_id <= 3 {
            page_id as usize
        } else if page_id == 0xff {
            self.cur_page_ptr3
        } else if page_id == 0xfe {
            self.cur_page_ptr2
        } else {
            0
        }
    }

    /// The page that a script page id names.
    pub fn get_page(&self, page_id: u8) -> (r: &Page)
        requires
            self.wf(),
        ensures
            r.data@ == self.page(self.resolve(page_id) as int),
    {
        let p = self.get_page_id(page_id);
        &self.pages[p]
    }

    /// Points the draw target at the page that `page_id` names.
    pub fn change_page_ptr1(&mut self, page_id: u8)
        requires
            old(self).wf(),
        ensures
            final(self).wf(),
            final(self).cur_page_ptr1 == old(self).resolve(page_id),
            final(self).cur_page_ptr2 == old(self).cur_page_ptr2,
            final(self).cur_page_ptr3 == old(self).cur_page_ptr3,
            final(self).pages@ == old(self).pages@,
            final(self).palette_requested == old(self).palette_requested,
            final(self).text_requests@ == old(self).text_requests@,
    {
        self.cur_page_ptr1 = self.get_page_id(page_id);
    }

    /// Sets every byte of the named page to `color` in both nibbles.
    pub fn fill_video_page(&mut self, page_id: u8, color: u8)
        requires
            old(self).wf(),
        ensures
            final(self).wf(),
            forall|p: int, i: int| 0 <= p < NUM_PAGES && 0 <= i < PAGE_SIZE ==>
                #[trigger] final(self).page(p)[i] == if p == old(self).resolve(page_id) {
                    packed_color(color)
                } else {
                    old(self).page(p)[i]
                },
            forall|p: int| 0 <= p < NUM_PAGES && p != old(self).resolve(page_id) ==>
                #[trigger] final(self).pages@[p] == old(self).pages@[p],
            final(self).cur_page_ptr1 == old(self).cur_page_ptr1,
            final(self).cur_page_ptr2 == old(self).cur_page_ptr2,
            final(self).cur_page_ptr3 == old(self).cur_page_ptr3,
            final(self).palette_requested == old(self).palette_requested,
            final(self).text_requests@ == old(self).text_requests@,
    {
        let p = self.get_page_id(page_id);
        let c: u8 = (color % 16) * 16 + color % 16;
        assert(c == packed_color(color)) by (nonlinear_arith)
            requires c == (color % 16) * 16 + color % 16;
        let mut data: Vec<u8> = Vec::new();
        while data.len() < PAGE_SIZE
            invariant
                data@.len() <= PAGE_SIZE,
                forall|j: int| 0 <= j < data@.len() ==> data@[j] == c,
            decreases PAGE_SIZE - data@.len(),
        {
            data.push(c);
        }
        self.pages.set(p, Page { data });
    }
}

/// Largest coordinate that a zoomed byte can reach: 255 * 65535 / 64.
pub const MAX_SCALED: i64 = 261117;
/// Bound on positions handed to the rasterizer.
pub const MAX_POS: i64 = 33554432;

/// `x` lies between `p` and `q`, either way round.
pub open spec fn between(x: int, p: int, q: int) -> bool {
    if p <= q {
        p <= x <= q
    } else {
        q <= x <= p
    }
}

pub open spec fn abs(v: int) -> int {
    if v < 0 {
        -v
    } else {
        v
    }
}

/// The x where the edge from (ax, ay) to (bx, by) crosses row `y`, by linear
/// interpolation rounded toward `ax`; a flat edge gives `ax`.
pub open spec fn edge_x(ax: int, ay: int, bx: int, by: int, y: int) -> int {
    if by == ay {
        ax
    } else {
        let q = (abs(bx - ax) * abs(y - ay)) / abs(by - ay);
        if (bx - ax >= 0) == ((y - ay >= 0) == (by - ay > 0)) {
            ax + q
        } else {
            ax - q
        }
    }
}

/// Step `k` of the scanline fill covers pixel (x, y): the right edge runs
/// from point k to k + 1, the left edge from point n-1-k to n-2-k, the row
/// lies in the rows of both edges, and x between the two edges there.
pub open spec fn step_covers(pts: Seq<(i32, i32)>, ox: int, oy: int, k: int, x: int, y: int) -> bool {
    let n = pts.len() as int;
    let ax = ox + pts[k].0;
    let ay = oy + pts[k].1;
    let bx = ox + pts[k + 1].0;
    let by = oy + pts[k + 1].1;
    let cx = ox + pts[n - 1 - k].0;
    let cy = oy + pts[n - 1 - k].1;
    let dx = ox + pts[n - 2 - k].0;
    let dy = oy + pts[n - 2 - k].1;
    &&& ay <= y <= by
    &&& cy <= y <= dy
    &&& between(x, edge_x(ax, ay, bx, by, y), edge_x(cx, cy, dx, dy, y))
}

/// The pixel (x, y) is painted when a polygon with outline `pts` and box
/// `bbw` by `bbh` is drawn centred on (px, py): two points give a horizontal
/// line, no points or a flat box a single pixel, more points the scanline fill.
pub open spec fn polygon_covers(pts: Seq<(i32, i32)>, bbw: int, bbh: int, px: int, py: int, x: int, y: int) -> bool {
    let n = pts.len() as int;
    let ox = px - bbw / 2;
    let oy = py - bbh / 2;
    if n == 2 {
        y == oy + pts[0].1 && between(x, ox + pts[0].0, ox + pts[1].0)
    } else if n == 0 || bbw == 0 || bbh == 0 {
        x == px && y == py
    } else {
        exists|k: int| 0 <= k < n / 2 - 1 && #[trigger] step_covers(pts, ox, oy, k, x, y)
    }
}

/// A rectangle outline (right side down, then left side up) covers exactly
/// its box: every pixel from the left to the right edge and from the top to
/// the bottom row, both included. With `fill_polygon`'s contract this is the
/// filled rectangle, clipped to the page because only page pixels exist.
pub proof fn lemma_rectangle_fill(w: i32, h: i32, px: int, py: int, x: int, y: int)
    requires
        0 < w,
        0 < h,
    ensures
        polygon_covers(seq![(w, 0i32), (w, h), (0i32, h), (0i32, 0i32)], w as int, h as int, px, py, x, y) <==> (
            px - w / 2 <= x <= px - w / 2 + w && py - h / 2 <= y <= py - h / 2 + h),
{
    let pts = seq![(w, 0i32), (w, h), (0i32, h), (0i32, 0i32)];
    let ox = px - w / 2;
    let oy = py - h / 2;
    assert(pts.len() == 4);
    assert(pts[0] == (w, 0i32) && pts[1] == (w, h) && pts[2] == (0i32, h) && pts[3] == (0i32, 0i32));
    assert(abs((ox + w) - (ox + w)) * abs(y - oy) == 0) by (nonlinear_arith);
    assert(abs(ox - ox) * abs(y - oy) == 0) by (nonlinear_arith);
    assert(0int / abs((oy + h) - oy) == 0);
    assert(edge_x(ox + w, oy, ox + w, oy + h, y) == ox + w);
    assert(edge_x(ox, oy, ox, oy + h, y) == ox);
    if polygon_covers(pts, w as int, h as int, px, py, x, y) {
        let k = choose|k: int| 0 <= k < 1 && #[trigger] step_covers(pts, ox, oy, k, x, y);
        assert(k == 0);
    }
    if ox <= x <= ox + w && oy <= y <= oy + h {
        assert(step_covers(pts, ox, oy, 0, x, y));
    }
}

/// `new` is `old` with the pixels that `covered` picks set to `color`.
pub open spec fn painted(new: Seq<u8>, old: Seq<u8>, color: u8, covered: spec_fn(int, int) -> bool) -> bool {
    &&& new.len() == PAGE_SIZE
    &&& old.len() == PAGE_SIZE
    &&& forall|i: int| 0 <= i < PAGE_SIZE ==>
        #[trigger] new[i] == if covered(col(i), row(i)) { color } else { old[i] }
}

proof fn lemma_pixel_index(i: int, y: int, x: int)
    requires
        0 <= x < SCREEN_W,
        0 <= y,
        0 <= i,
    ensures
        (i == y * 320 + x) <==> (row(i) == y && col(i) == x),
{
}

/// Why the vertex list at `a` cannot be decoded, if it cannot: its header or
/// its points run past the arena, or its count is odd or too large.
pub open spec fn vertex_error(mem: Seq<u8>, a: int) -> Option<VideoError> {
    if a + 3 > mem.len() {
        Some(VideoError::DataOutOfRange)
    } else if mem[a + 2] % 2 != 0 || mem[a + 2] >= MAX_POINTS {
        Some(VideoError::BadVertexCount(mem[a + 2]))
    } else if a + 3 + 2 * mem[a + 2] > mem.len() {
        Some(VideoError::DataOutOfRange)
    } else {
        None
    }
}

/// The points of the vertex list at `a`, scaled by `zoom`.
pub open spec fn decoded_points(mem: Seq<u8>, a: int, zoom: u16) -> Seq<(i32, i32)> {
    Seq::new(
        mem[a + 2] as nat,
        |j: int| (scale(mem[a + 3 + 2 * j], zoom) as i32, scale(mem[a + 4 + 2 * j], zoom) as i32),
    )
}

impl Polygon {
    /// Bounds that decoding guarantees: an even count below `MAX_POINTS` and
    /// coordinates no larger than a zoomed byte.
    pub open spec fn wf(&self) -> bool {
        &&& self.points@.len() % 2 == 0
        &&& self.points@.len() < MAX_POINTS
        &&& self.bbw <= MAX_SCALED
        &&& self.bbh <= MAX_SCALED
        &&& forall|j: int| 0 <= j < self.points@.len() ==>
            0 <= (#[trigger] self.points@[j]).0 <= MAX_SCALED && 0 <= self.points@[j].1 <= MAX_SCALED
    }

    /// Decodes a polygon at the cursor: width and height bytes, a point count,
    /// then an x and a y byte for each point, all scaled by `zoom`.
    pub fn read_vertices(cursor: Buffer, res: &Resource, zoom: u16) -> (r: Result<Polygon, VideoError>)
        ensures
            match vertex_error(res.memory@, cursor.base + cursor.pos) {
                Some(e) => r == Err::<Polygon, VideoError>(e),
                None => {
                    &&& r is Ok
                    &&& r->Ok_0.wf()
                    &&& r->Ok_0.bbw == scale(res.memory@[cursor.base + cursor.pos], zoom)
                    &&& r->Ok_0.bbh == scale(res.memory@[cursor.base + cursor.pos + 1], zoom)
                    &&& r->Ok_0.points@ == decoded_points(res.memory@, cursor.base + cursor.pos, zoom)
                },
            },
    {
        let mut buffer = cursor;
        let ghost a = buffer.base + buffer.pos;
        let ghost mem = res.memory@;
        let b0 = match buffer.fetch_byte(res) {
            Some(b) => b,
            None => return Err(VideoError::DataOutOfRange),
        };
        let b1 = match buffer.fetch_byte(res) {
            Some(b) => b,
            None => return Err(VideoError::DataOutOfRange),
        };
        let num_points = match buffer.fetch_byte(res) {
            Some(b) => b,
            None => return Err(VideoError::DataOutOfRange),
        };
        if num_points % 2 != 0 || num_points as usize >= MAX_POINTS {
            return Err(VideoError::BadVertexCount(num_points));
        }
        let bbw = scale_byte(b0, zoom);
        let bbh = scale_byte(b1, zoom);
        let mut points: Vec<(i32, i32)> = Vec::new();
        let mut j: u8 = 0;
        while j < num_points
            invariant
                j <= num_points,
                num_points < MAX_POINTS,
                num_points % 2 == 0,
                mem == res.memory@,
                a == cursor.base + cursor.pos,
                a + 3 <= mem.len(),
                num_points == mem[a + 2],
                buffer.base + buffer.pos == a + 3 + 2 * j,
                points@.len() == j,
                forall|k: int| 0 <= k < j ==> #[trigger] points@[k] == (
                    scale(mem[a + 3 + 2 * k], zoom) as i32,
                    scale(mem[a + 4 + 2 * k], zoom) as i32,
                ),
                forall|k: int| 0 <= k < j ==>
                    0 <= (#[trigger] points@[k]).0 <= MAX_SCALED && 0 <= points@[k].1 <= MAX_SCALED,
                a + 3 + 2 * j <= mem.len(),
            decreases num_points - j,
        {
            let bx = match buffer.fetch_byte(res) {
                Some(b) => b,
                None => return Err(VideoError::DataOutOfRange),
            };
            let by = match buffer.fetch_byte(res) {
                Some(b) => b,
                None => return Err(VideoError::DataOutOfRange),
            };
            points.push((scale_byte(bx, zoom) as i32, scale_byte(by, zoom) as i32));
            j = j + 1;
        }
        assert(points@ =~= decoded_points(mem, a, zoom));
        Ok(Polygon { bbw, bbh, points })
    }
}

/// A byte coordinate scaled by `zoom` in exact arithmetic.
fn scale_byte(b: u8, zoom: u16) -> (r: u32)
    ensures
        r == scale(b, zoom),
        r <= MAX_SCALED,
{
    assert(b as int * zoom as int <= 255 * 65535) by (nonlinear_arith)
        requires b <= 255, zoom <= 65535;
    let r = (b as u32 * zoom as u32) / 64;
    r
}

/// Bound on the corner coordinates handed to `edge_at`.
pub const MAX_COORD: i64 = 67108864;

/// The x where an edge crosses row `y` (see `edge_x`), in machine integers.
fn edge_at(ax: i64, ay: i64, bx: i64, by: i64, y: i64) -> (r: i64)
    requires
        -MAX_COORD <= ax <= MAX_COORD,
        -MAX_COORD <= ay <= MAX_COORD,
        -MAX_COORD <= bx <= MAX_COORD,
        -MAX_COORD <= by <= MAX_COORD,
        -MAX_COORD <= y <= MAX_COORD,
    ensures
        r == edge_x(ax as int, ay as int, bx as int, by as int, y as int),
{
    if by == ay {
        return ax;
    }
    let dx = bx - ax;
    let dy = by - ay;
    let t = y - ay;
    let adx: u64 = if dx < 0 { (-dx) as u64 } else { dx as u64 };
    let ady: u64 = if dy < 0 { (-dy) as u64 } else { dy as u64 };
    let at: u64 = if t < 0 { (-t) as u64 } else { t as u64 };
    assert(adx * at <= 0x4000_0000_0000_0000) by (nonlinear_arith)
        requires adx <= 0x800_0000, at <= 0x800_0000;
    let q: u64 = (adx * at) / ady;
    assert(q <= adx * at) by (nonlinear_arith)
        requires q == (adx * at) as int / (ady as int), ady >= 1;
    assert(q <= 0x4000_0000_0000_0000);
    if (dx >= 0) == ((t >= 0) == (dy > 0)) {
        assert(ax + q <= 0x4000_0000_0000_0000 + MAX_COORD);
        ax + q as i64
    } else {
        ax - q as i64
    }
}

/// Sets to `color` the pixels of row `y` between `x1` and `x2`, clipped to the page.
fn paint_span(data: &mut Vec<u8>, y: i64, x1: i64, x2: i64, color: u8)
    requires
        old(data)@.len() == PAGE_SIZE,
    ensures
        final(data)@.len() == PAGE_SIZE,
        forall|i: int| 0 <= i < PAGE_SIZE ==>
            #[trigger] final(data)@[i] == if row(i) == y && between(col(i), x1 as int, x2 as int) {
                color
            } else {
                old(data)@[i]
            },
{
    if y < 0 || y >= SCREEN_H as i64 {
        return;
    }
    let lo = if x1 <= x2 { x1 } else { x2 };
    let hi = if x1 <= x2 { x2 } else { x1 };
    if hi < 0 || lo >= SCREEN_W as i64 {
        return;
    }
    let first: usize = if lo < 0 { 0 } else { lo as usize };
    let last: usize = if hi >= SCREEN_W as i64 { SCREEN_W - 1 } else { hi as usize };
    let base: usize = (y as usize) * SCREEN_W;
    let mut x: usize = first;
    while x <= last
        invariant
            data@.len() == PAGE_SIZE,
            first <= x <= last + 1,
            last < SCREEN_W,
            0 <= y < SCREEN_H,
            base == y * 320,
            first == if lo < 0 { 0 } else { lo },
            last == if hi >= 320 { 319 } else { hi },
            lo == if x1 <= x2 { x1 } else { x2 },
            hi == if x1 <= x2 { x2 } else { x1 },
            forall|i: int| 0 <= i < PAGE_SIZE ==>
                #[trigger] data@[i] == if row(i) == y && first <= col(i) < x {
                    color
                } else {
                    old(data)@[i]
                },
        decreases last + 1 - x,
    {
        let ghost before = data@;
        data.set(base + x, color);
        proof {
            assert forall|i: int| 0 <= i < PAGE_SIZE implies #[trigger] data@[i] == if row(i) == y
                && first <= col(i) < x + 1 {
                color
            } else {
                old(data)@[i]
            } by {
                lemma_pixel_index(i, y as int, x as int);
            }
        }
        x = x + 1;
    }
    proof {
        assert forall|i: int| 0 <= i < PAGE_SIZE implies (row(i) == y && first <= col(i) < x) == (row(i)
            == y && between(col(i), x1 as int, x2 as int)) by {
            assert(0 <= col(i) < 320);
        }
    }
}

impl Video {
    /// Paints `poly` centred on (px, py) into the draw-target page in `color`;
    /// every other page and every pointer stay as they were.
    pub fn fill_polygon(&mut self, poly: &Polygon, color: u8, px: i64, py: i64)
        requires
            old(self).wf(),
            poly.wf(),
            -MAX_POS <= px <= MAX_POS,
            -MAX_POS <= py <= MAX_POS,
        ensures
            final(self).wf(),
            painted(
                final(self).page(old(self).cur_page_ptr1 as int),
                old(self).page(old(self).cur_page_ptr1 as int),
                color,
                |x: int, y: int| polygon_covers(poly.points@, poly.bbw as int, poly.bbh as int, px as int, py as int, x, y),
            ),
            forall|p: int| 0 <= p < NUM_PAGES && p != old(self).cur_page_ptr1 ==>
                #[trigger] final(self).pages@[p] == old(self).pages@[p],
            final(self).cur_page_ptr1 == old(self).cur_page_ptr1,
            final(self).cur_page_ptr2 == old(self).cur_page_ptr2,
            final(self).cur_page_ptr3 == old(self).cur_page_ptr3,
            final(self).palette_requested == old(self).palette_requested,
            final(self).text_requests@ == old(self).text_requests@,
    {
        let target = self.cur_page_ptr1;
        assert(self.pages@[target as int].wf());
        let mut data = self.pages[target].data.clone();
        assert(data@ =~= old(self).page(target as int));
        let ghost orig = data@;
        let pts = &poly.points;
        let n = pts.len();
        let ox = px - (poly.bbw / 2) as i64;
        let oy = py - (poly.bbh / 2) as i64;
        let ghost covers = |x: int, y: int| polygon_covers(poly.points@, poly.bbw as int, poly.bbh as int, px as int, py as int, x, y);
        if n == 2 {
            paint_span(&mut data, oy + pts[0].1 as i64, ox + pts[0].0 as i64, ox + pts[1].0 as i64, color);
        } else if n == 0 || poly.bbw == 0 || poly.bbh == 0 {
            paint_span(&mut data, py, px, px, color);
        } else {
            let half = n / 2;
            let mut k: usize = 0;
            while k + 1 < half
                invariant
                    n == pts@.len(),
                    pts@ == poly.points@,
                    poly.wf(),
                    n >= 4,
                    half == n / 2,
                    k + 1 <= half,
                    ox == px - poly.bbw / 2,
                    oy == py - poly.bbh / 2,
                    -MAX_POS <= px <= MAX_POS,
                    -MAX_POS <= py <= MAX_POS,
                    data@.len() == PAGE_SIZE,
                    orig.len() == PAGE_SIZE,
                    forall|i: int| 0 <= i < PAGE_SIZE ==>
                        #[trigger] data@[i] == if exists|j: int| 0 <= j < k && #[trigger] step_covers(pts@, ox as int, oy as int, j, col(i), row(i)) {
                            color
                        } else {
                            orig[i]
                        },
                decreases half - k,
            {
                let ax = ox + pts[k].0 as i64;
                let ay = oy + pts[k].1 as i64;
                let bx = ox + pts[k + 1].0 as i64;
                let by = oy + pts[k + 1].1 as i64;
                let cx = ox + pts[n - 1 - k].0 as i64;
                let cy = oy + pts[n - 1 - k].1 as i64;
                let dx = ox + pts[n - 2 - k].0 as i64;
                let dy = oy + pts[n - 2 - k].1 as i64;
                let top: i64 = if ay < cy { cy } else { ay };
                let bottom: i64 = if by < dy { by } else { dy };
                let first: i64 = if top < 0 { 0 } else { top };
                let last: i64 = if bottom >= SCREEN_H as i64 { SCREEN_H as i64 - 1 } else { bottom };
                let ghost mid = data@;
                let mut y: i64 = first;
                while y <= last
                    invariant
                        first <= y,
                        y <= last + 1 || y == first,
                        first >= 0,
                        last < SCREEN_H,
                        top == if ay < cy { cy } else { ay },
                        bottom == if by < dy { by } else { dy },
                        first == if top < 0 { 0 } else { top },
                        last == if bottom >= 200 { 199 } else { bottom },
                        ax == ox + pts@[k as int].0,
                        ay == oy + pts@[k as int].1,
                        bx == ox + pts@[k + 1].0,
                        by == oy + pts@[k + 1].1,
                        cx == ox + pts@[n - 1 - k].0,
                        cy == oy + pts@[n - 1 - k].1,
                        dx == ox + pts@[n - 2 - k].0,
                        dy == oy + pts@[n - 2 - k].1,
                        -MAX_COORD <= ax <= MAX_COORD,
                        -MAX_COORD <= ay <= MAX_COORD,
                        -MAX_COORD <= bx <= MAX_COORD,
                        -MAX_COORD <= by <= MAX_COORD,
                        -MAX_COORD <= cx <= MAX_COORD,
                        -MAX_COORD <= cy <= MAX_COORD,
                        -MAX_COORD <= dx <= MAX_COORD,
                        -MAX_COORD <= dy <= MAX_COORD,
                        n == pts@.len(),
                        k + 2 <= n / 2,
                        data@.len() == PAGE_SIZE,
                        mid.len() == PAGE_SIZE,
                        forall|i: int| 0 <= i < PAGE_SIZE ==>
                            #[trigger] data@[i] == if row(i) < y && step_covers(pts@, ox as int, oy as int, k as int, col(i), row(i)) {
                                color
                            } else {
                                mid[i]
                            },
                    decreases last + 1 - y,
                {
                    let xr = edge_at(ax, ay, bx, by, y);
                    let xl = edge_at(cx, cy, dx, dy, y);
                    paint_span(&mut data, y, xr, xl, color);
                    y = y + 1;
                }
                proof {
                    assert forall|i: int| 0 <= i < PAGE_SIZE implies #[trigger] data@[i] == if exists|j: int| 0 <= j < k + 1 && #[trigger] step_covers(pts@, ox as int, oy as int, j, col(i), row(i)) {
                        color
                    } else {
                        orig[i]
                    } by {
                        if step_covers(pts@, ox as int, oy as int, k as int, col(i), row(i)) {
                            assert(row(i) < 200);
                        }
                    }
                }
                k = k + 1;
            }
        }
        self.pages.set(target, Page { data });
        assert(painted(self.page(target as int), orig, color, covers));
    }
}

/// The pixel at index `i` after copying `src` over `dst` shifted down by
/// `vscroll` rows: rows whose source row falls off the page keep `dst`.
pub open spec fn scrolled_pixel(src: Seq<u8>, dst: Seq<u8>, vscroll: int, i: int) -> u8 {
    if 0 <= row(i) - vscroll < SCREEN_H {
        src[i - vscroll * 320]
    } else {
        dst[i]
    }
}

/// What drawing the polygon data at arena address `a` centred on (px, py)
/// gives, as far as the data's first byte decides it: past the arena an
/// error; a discriminator of 0xC0 or more a single polygon (its low six bits
/// as colour when `color` has its top bit set), painted into the draw target
/// or, if its vertex list is corrupt, that error with the pages untouched;
/// a discriminator whose low six bits are not 2 nothing at all.
pub open spec fn drawn(
    old: &Video,
    new: &Video,
    mem: Seq<u8>,
    a: int,
    color: u8,
    zoom: u16,
    px: int,
    py: int,
    r: Result<(), VideoError>,
) -> bool {
    let d = mem[a];
    if a >= mem.len() {
        r == Err::<(), VideoError>(VideoError::DataOutOfRange)
    } else if d >= 0xc0 {
        match vertex_error(mem, a + 1) {
            Some(e) => r == Err::<(), VideoError>(e) && new.pages@ == old.pages@,
            None => r is Ok && painted(
                new.page(old.cur_page_ptr1 as int),
                old.page(old.cur_page_ptr1 as int),
                if color >= 0x80 { d % 64 } else { color },
                |x: int, y: int| polygon_covers(
                    decoded_points(mem, a + 1, zoom),
                    scale(mem[a + 1], zoom),
                    scale(mem[a + 2], zoom),
                    px,
                    py,
                    x,
                    y,
                ),
            ),
        }
    } else if d % 64 != 2 {
        r is Ok && new.pages@ == old.pages@
    } else {
        true
    }
}

/// Where child record `k` of the hierarchy whose header is at `a` starts: the
/// header takes three bytes, a record four, or six when its word has its top
/// bit set (a colour byte and a spare byte follow).
pub open spec fn rec_addr(mem: Seq<u8>, a: int, k: nat) -> int
    decreases k,
{
    if k == 0 {
        a + 3
    } else {
        let r = rec_addr(mem, a, (k - 1) as nat);
        r + if mem[r] >= 0x80 { 6int } else { 4int }
    }
}

/// `new` is `old` after drawing child `k` of the hierarchy at `a` in the
/// segment at `base`: the polygon at twice the low 15 bits of its word, in its
/// own colour when it has one (else the data's), at the anchor (the position
/// less the header's displacement) plus its own displacement, all zoomed.
pub open spec fn child_drawn(
    old: &Video,
    new: &Video,
    mem: Seq<u8>,
    base: int,
    a: int,
    k: nat,
    zoom: u16,
    px: int,
    py: int,
) -> bool {
    let r = rec_addr(mem, a, k);
    let w = mem[r] as int * 256 + mem[r + 1] as int;
    let color: u8 = if mem[r] >= 0x80 { mem[r + 4] % 128 } else { 0xff };
    drawn(
        old,
        new,
        mem,
        base + (w % 0x8000) * 2,
        color,
        zoom,
        px - scale(mem[a], zoom) + scale(mem[r + 2], zoom),
        py - scale(mem[a + 1], zoom) + scale(mem[r + 3], zoom),
        Ok(()),
    )
}

/// `new` is `old` after drawing, in order, the children of the hierarchy at
/// `a` (a displacement, a count less one, then the records).
pub open spec fn hierarchy_drawn(old: &Video, new: &Video, mem: Seq<u8>, base: int, a: int, zoom: u16, px: int, py: int) -> bool {
    exists|vs: Seq<Video>| {
        &&& vs.len() == mem[a + 2] + 2
        &&& vs[0] == *old
        &&& vs.last() == *new
        &&& forall|k: int| 0 <= k <= mem[a + 2] ==> #[trigger] child_drawn(&vs[k], &vs[k + 1], mem, base, a, k as nat, zoom, px, py)
    }
}

/// Bound on anchor positions at a given remaining hierarchy depth: each level
/// moves the anchor by less than 2^20.
pub open spec fn pos_bound(depth: u32) -> int {
    32768 + (MAX_HIERARCHY_DEPTH - depth) * 1048576
}

impl Video {
    /// Everything but the draw-target page is as in `old`.
    pub open spec fn only_target_changed(&self, old: &Video) -> bool {
        &&& self.wf()
        &&& forall|p: int| 0 <= p < NUM_PAGES && p != old.cur_page_ptr1 ==>
            #[trigger] self.pages@[p] == old.pages@[p]
        &&& self.cur_page_ptr1 == old.cur_page_ptr1
        &&& self.cur_page_ptr2 == old.cur_page_ptr2
        &&& self.cur_page_ptr3 == old.cur_page_ptr3
        &&& self.palette_requested == old.palette_requested
        &&& self.text_requests@ == old.text_requests@
    }

    /// Copies page `src_page_id` into page `dst_page_id`, shifted down by
    /// `vscroll` rows (up when negative); rows without a source are left alone.
    pub fn copy_page(&mut self, src_page_id: u8, dst_page_id: u8, vscroll: i16)
        requires
            old(self).wf(),
        ensures
            final(self).wf(),
            forall|p: int, i: int| 0 <= p < NUM_PAGES && 0 <= i < PAGE_SIZE ==>
                #[trigger] final(self).page(p)[i] == if p == old(self).resolve(dst_page_id) {
                    scrolled_pixel(old(self).page(old(self).resolve(src_page_id) as int), old(self).page(p), vscroll as int, i)
                } else {
                    old(self).page(p)[i]
                },
            forall|p: int| 0 <= p < NUM_PAGES && p != old(self).resolve(dst_page_id) ==>
                #[trigger] final(self).pages@[p] == old(self).pages@[p],
            final(self).cur_page_ptr1 == old(self).cur_page_ptr1,
            final(self).cur_page_ptr2 == old(self).cur_page_ptr2,
            final(self).cur_page_ptr3 == old(self).cur_page_ptr3,
            final(self).palette_requested == old(self).palette_requested,
            final(self).text_requests@ == old(self).text_requests@,
    {
        let sp = self.get_page_id(src_page_id);
        let dp = self.get_page_id(dst_page_id);
        assert(self.pages@[sp as int].wf());
        assert(self.pages@[dp as int].wf());
        let src = &self.pages[sp].data;
        let mut data = self.pages[dp].data.clone();
        assert(data@ =~= old(self).page(dp as int));
        let ghost orig = data@;
        let mut i: usize = 0;
        while i < PAGE_SIZE
            invariant
                src@ == old(self).page(sp as int),
                src@.len() == PAGE_SIZE,
                data@.len() == PAGE_SIZE,
                orig.len() == PAGE_SIZE,
                i <= PAGE_SIZE,
                forall|j: int| 0 <= j < PAGE_SIZE ==>
                    #[trigger] data@[j] == if j < i { scrolled_pixel(src@, orig, vscroll as int, j) } else { orig[j] },
            decreases PAGE_SIZE - i,
        {
            let r: i64 = (i / SCREEN_W) as i64;
            let sr: i64 = r - vscroll as i64;
            if 0 <= sr && sr < SCREEN_H as i64 {
                let from: usize = (i as i64 - (vscroll as i64) * (SCREEN_W as i64)) as usize;
                assert(0 <= i - vscroll * 320 < PAGE_SIZE);
                data.set(i, src[from]);
            }
            i = i + 1;
        }
        self.pages.set(dp, Page { data });
    }

    /// Records a string for the text layer to render at (x, y) in `color`.
    pub fn draw_string(&mut self, color: u16, x: u16, y: u16, string_id: u16)
        ensures
            final(self).text_requests@ == old(self).text_requests@.push(
                TextRequest { string_id, x, y, color },
            ),
            final(self).pages@ == old(self).pages@,
            final(self).cur_page_ptr1 == old(self).cur_page_ptr1,
            final(self).cur_page_ptr2 == old(self).cur_page_ptr2,
            final(self).cur_page_ptr3 == old(self).cur_page_ptr3,
            final(self).palette_requested == old(self).palette_requested,
    {
        self.text_requests.push(TextRequest { string_id, x, y, color });
    }

    /// Draws the polygon data at the cursor, centred on `point`, into the draw
    /// target. A discriminator byte of 0xC0 or more starts a single polygon,
    /// whose low six bits replace `color` when `color` has its top bit set; a
    /// discriminator of 2 in its low six bits starts a hierarchy; any other
    /// discriminator draws nothing.
    pub fn read_and_draw_polygon(&mut self, res: &Resource, buffer: Buffer, color: u8, zoom: u16, point: Point)
        -> (r: Result<(), VideoError>)
        requires
            old(self).wf(),
        ensures
            final(self).only_target_changed(old(self)),
            drawn(old(self), final(self), res.memory@, buffer.base + buffer.pos, color, zoom, point.x as int, point.y as int, r),
            ({
                let mem = res.memory@;
                let a = buffer.base + buffer.pos;
                a < mem.len() && mem[a] < 0xc0 && mem[a] % 64 == 2 && r is Ok ==> hierarchy_drawn(
                    old(self),
                    final(self),
                    mem,
                    buffer.base as int,
                    a + 1,
                    zoom,
                    point.x as int,
                    point.y as int,
                )
            }),
    {
        self.draw_polygon_at(res, buffer, color, zoom, point.x as i64, point.y as i64, MAX_HIERARCHY_DEPTH)
    }

    fn draw_polygon_at(
        &mut self,
        res: &Resource,
        buffer: Buffer,
        color: u8,
        zoom: u16,
        px: i64,
        py: i64,
        depth: u32,
    ) -> (r: Result<(), VideoError>)
        requires
            old(self).wf(),
            depth <= MAX_HIERARCHY_DEPTH,
            -pos_bound(depth) <= px <= pos_bound(depth),
            -pos_bound(depth) <= py <= pos_bound(depth),
        ensures
            final(self).only_target_changed(old(self)),
            drawn(old(self), final(self), res.memory@, buffer.base + buffer.pos, color, zoom, px as int, py as int, r),
            ({
                let mem = res.memory@;
                let a = buffer.base + buffer.pos;
                a < mem.len() && mem[a] < 0xc0 && mem[a] % 64 == 2 && r is Ok ==> hierarchy_drawn(
                    old(self),
                    final(self),
                    mem,
                    buffer.base as int,
                    a + 1,
                    zoom,
                    px as int,
                    py as int,
                )
            }),
        decreases depth, 1int,
    {
        let mut buffer = buffer;
        let disc = match buffer.fetch_byte(res) {
            Some(b) => b,
            None => return Err(VideoError::DataOutOfRange),
        };
        if disc >= 0xc0 {
            let c = if color >= 0x80 { disc % 64 } else { color };
            let polygon = Polygon::read_vertices(buffer, res, zoom)?;
            self.fill_polygon(&polygon, c, px, py);
            Ok(())
        } else if disc % 64 == 2 {
            self.read_and_draw_polygon_hierarchy(res, buffer, zoom, px, py, depth)
        } else {
            Ok(())
        }
    }

    /// Draws a polygon hierarchy: an anchor displacement, a child count less
    /// one, then per child a word (offset in words, top bit: a colour byte and
    /// a spare byte follow the position) and an x and a y byte placing it
    /// relative to the anchor. Children are drawn in order from the segment's base.
    fn read_and_draw_polygon_hierarchy(
        &mut self,
        res: &Resource,
        cursor: Buffer,
        zoom: u16,
        px: i64,
        py: i64,
        depth: u32,
    ) -> (r: Result<(), VideoError>)
        requires
            old(self).wf(),
            depth <= MAX_HIERARCHY_DEPTH,
            -pos_bound(depth) <= px <= pos_bound(depth),
            -pos_bound(depth) <= py <= pos_bound(depth),
        ensures
            final(self).only_target_changed(old(self)),
            depth == 0 ==> r == Err::<(), VideoError>(VideoError::HierarchyTooDeep),
            r is Ok ==> hierarchy_drawn(
                old(self),
                final(self),
                res.memory@,
                cursor.base as int,
                cursor.base + cursor.pos,
                zoom,
                px as int,
                py as int,
            ),
        decreases depth, 0int,
    {
        if depth == 0 {
            return Err(VideoError::HierarchyTooDeep);
        }
        let ghost mem = res.memory@;
        let ghost a = cursor.base + cursor.pos;
        let mut buffer = cursor;
        let dx = match buffer.fetch_byte(res) {
            Some(b) => b,
            None => return Err(VideoError::DataOutOfRange),
        };
        let dy = match buffer.fetch_byte(res) {
            Some(b) => b,
            None => return Err(VideoError::DataOutOfRange),
        };
        let ax = px - scale_byte(dx, zoom) as i64;
        let ay = py - scale_byte(dy, zoom) as i64;
        let count = match buffer.fetch_byte(res) {
            Some(b) => b,
            None => return Err(VideoError::DataOutOfRange),
        };
        let ghost start = *self;
        let ghost mut vs: Seq<Video> = seq![*self];
        let mut k: u32 = 0;
        while k <= count as u32
            invariant
                mem == res.memory@,
                count == mem[a + 2],
                dx == mem[a],
                dy == mem[a + 1],
                ax == px - scale(dx, zoom),
                ay == py - scale(dy, zoom),
                buffer.base + buffer.pos == rec_addr(mem, a, k as nat),
                buffer.base == cursor.base,
                a == cursor.base + cursor.pos,
                vs.len() == k + 1,
                vs[0] == *old(self),
                vs.last() == *self,
                forall|j: int| 0 <= j < k ==> #[trigger] child_drawn(&vs[j], &vs[j + 1], mem, buffer.base as int, a, j as nat, zoom, px as int, py as int),
                self.only_target_changed(&start),
                start.only_target_changed(old(self)),
                depth >= 1,
                depth <= MAX_HIERARCHY_DEPTH,
                -pos_bound(depth) - MAX_SCALED <= ax <= pos_bound(depth),
                -pos_bound(depth) - MAX_SCALED <= ay <= pos_bound(depth),
                k <= count as u32 + 1,
            decreases count as u32 + 1 - k,
        {
            let word = match buffer.fetch_word(res) {
                Some(w) => w,
                None => return Err(VideoError::DataOutOfRange),
            };
            let cx = match buffer.fetch_byte(res) {
                Some(b) => b,
                None => return Err(VideoError::DataOutOfRange),
            };
            let cy = match buffer.fetch_byte(res) {
                Some(b) => b,
                None => return Err(VideoError::DataOutOfRange),
            };
            let mut child_color: u8 = 0xff;
            if word >= 0x8000 {
                child_color = match buffer.fetch_byte(res) {
                    Some(b) => b % 128,
                    None => return Err(VideoError::DataOutOfRange),
                };
                if buffer.fetch_byte(res).is_none() {
                    return Err(VideoError::DataOutOfRange);
                }
            }
            let offset = (word % 0x8000) as usize * 2;
            let child = Buffer::with_offset(buffer.base, offset);
            let qx = ax + scale_byte(cx, zoom) as i64;
            let qy = ay + scale_byte(cy, zoom) as i64;
            let ghost before = *self;
            self.draw_polygon_at(res, child, child_color, zoom, qx, qy, depth - 1)?;
            proof {
                let cur = *self;
                let vs2 = vs.push(cur);
                assert(child_drawn(&before, &cur, mem, buffer.base as int, a, k as nat, zoom, px as int, py as int));
                assert(forall|j: int| 0 <= j <= k ==> vs2[j] == vs[j]);
                vs = vs2;
            }
            k = k + 1;
        }
        proof {
            assert(vs.len() == mem[a + 2] + 2);
        }
        Ok(())
    }
}

} // verus!
