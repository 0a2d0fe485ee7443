//! Pattern memory: tiles decoded from VRAM, one byte per pixel.
use vstd::prelude::*;

verus! {

pub const TILE_SIZE: usize = 8;

/// Bits per pixel of a tile.
#[derive(Clone, Copy, PartialEq, Eq, Structural, Debug)]
pub enum BitsPerPixel {
    _2,
    _4,
    _8,
}

impl BitsPerPixel {
    pub open spec fn spec_bits(self) -> nat {
        match self {
            BitsPerPixel::_2 => 2,
            BitsPerPixel::_4 => 4,
            BitsPerPixel::_8 => 8,
        }
    }

    /// The number of bits per pixel.
    pub fn bits(self) -> (r: u8)
        ensures
            r == self.spec_bits(),
    {
        match self {
            BitsPerPixel::_2 => 2,
            BitsPerPixel::_4 => 4,
            BitsPerPixel::_8 => 8,
        }
    }
}

/// An 8x8 tile: one byte for each pixel, row by row.
#[derive(Clone)]
pub struct Tile {
    data: Vec<u8>,
}

impl View for Tile {
    type V = Seq<u8>;

    closed spec fn view(&self) -> Seq<u8> {
        self.data@
    }
}

/// The index of pixel (`x`, `y`) in a tile's bytes.
pub open spec fn texel_index(x: int, y: int) -> int {
    y * 8 + x
}

impl Tile {
    pub fn new() -> (r: Self)
        ensures
            r@ == Seq::new(64, |i: int| 0u8),
    {
        let r = Tile { data: vec![0; TILE_SIZE * TILE_SIZE] };
        assert(r@ =~= Seq::new(64, |i: int| 0u8));
        r
    }

    pub fn get_texel(&self, x: usize, y: usize) -> (r: u8)
        requires
            x < TILE_SIZE,
            y < TILE_SIZE,
            self@.len() == 64,
        ensures
            r == self@[texel_index(x as int, y as int)],
    {
        self.data[y * TILE_SIZE + x]
    }

    /// Set every pixel to zero.
    pub fn clear(&mut self)
        ensures
            final(self)@ == Seq::new(old(self)@.len(), |i: int| 0u8),
    {
        let mut i: usize = 0;
        while i < self.data.len()
            invariant
                i <= self@.len() == old(self)@.len(),
                forall|j: int| 0 <= j < i ==> self@[j] == 0,
            decreases self@.len() - i,
        {
            self.data.set(i, 0);
            i = i + 1;
        }
        assert(self@ =~= Seq::new(old(self)@.len(), |i: int| 0u8));
    }
}

const PATTERN_MEM_WIDTH_TILES: u16 = 16;
const OBJ_PATTERN_MEM_HEIGHT_TILES: u16 = 16;

/// Bytes per tile: 8 rows of one byte per bitplane.
pub open spec fn tile_bytes(bpp: nat) -> nat {
    8 * bpp
}

/// The offset of the byte holding bitplane `p` of row `y` of tile `t`.
/// Bitplanes come in pairs: row by row, the two planes of a pair
/// interleaved, 16 bytes per pair.
pub open spec fn plane_offset(bpp: nat, t: int, y: int, p: int) -> int {
    t * tile_bytes(bpp) + (p / 2) * 16 + y * 2 + p % 2
}

/// Bit `p` of pixel (`x`, `y`) of tile `t` decoded from `data`, whose
/// first tile starts at `start`: bit 7 - `x` of the byte of bitplane `p`.
pub open spec fn decoded_bit(data: Seq<u8>, start: int, bpp: nat, t: int, x: int, y: int, p: int) -> u8 {
    if p < bpp {
        (data[start + plane_offset(bpp, t, y, p)] >> ((7 - x) as u8)) & 1
    } else {
        0
    }
}

/// Whether `tile` holds tile `t` of the pattern data at `start`.
pub open spec fn tile_decoded(tile: Seq<u8>, data: Seq<u8>, start: int, bpp: nat, t: int) -> bool {
    &&& tile.len() == 64
    &&& forall|x: int, y: int, p: int|
        0 <= x < 8 && 0 <= y < 8 && 0 <= p < 8 ==> #[trigger] ((tile[texel_index(x, y)] >> (p as u8)) & 1)
            == decoded_bit(data, start, bpp, t, x, y, p)
}

proof fn lemma_or_bit(v: u8, b: u8, p: u8, q: u8)
    requires
        b <= 1,
        p < 8,
        q < 8,
    ensures
        q != p ==> ((v | (b << p)) >> q) & 1 == (v >> q) & 1,
        q == p && (v >> q) & 1 == 0 ==> ((v | (b << p)) >> q) & 1 == b,
{
    assert(q != p ==> ((v | (b << p)) >> q) & 1 == (v >> q) & 1) by (bit_vector)
        requires
            b <= 1,
            p < 8,
            q < 8,
    ;
    assert(q == p && (v >> q) & 1 == 0 ==> ((v | (b << p)) >> q) & 1 == b) by (bit_vector)
        requires
            b <= 1,
            p < 8,
            q < 8,
    ;
}

proof fn lemma_zero_bits(q: u8)
    ensures
        (0u8 >> q) & 1 == 0,
{
    assert((0u8 >> q) & 1 == 0) by (bit_vector);
}

/// The abstract state of a pattern memory.
pub struct PatternMemView {
    pub bits_per_pixel: BitsPerPixel,
    pub start_addr: u16,
    pub end_addr: u16,
    pub tiles: Seq<Seq<u8>>,
}

/// A pattern memory of depth `bpp` that covers no address yet.
pub open spec fn empty_pattern(bpp: BitsPerPixel) -> PatternMemView {
    PatternMemView { bits_per_pixel: bpp, start_addr: u16::MAX, end_addr: u16::MAX, tiles: Seq::empty() }
}

/// Tiles decoded from VRAM for one background or for sprites.
pub struct PatternMem {
    bits_per_pixel: BitsPerPixel,
    start_addr: u16,
    end_addr: u16,
    tiles: Vec<Tile>,
}

impl View for PatternMem {
    type V = PatternMemView;

    closed spec fn view(&self) -> PatternMemView {
        PatternMemView {
            bits_per_pixel: self.bits_per_pixel,
            start_addr: self.start_addr,
            end_addr: self.end_addr,
            tiles: self.tiles@.map_values(|t: Tile| t@),
        }
    }
}

impl PatternMemView {
    /// The tiles exactly cover the address range.
    pub open spec fn wf(self) -> bool {
        &&& self.tiles.len() > 0
        &&& self.end_addr - self.start_addr + 1 == self.tiles.len() * tile_bytes(self.bits_per_pixel.spec_bits())
        &&& forall|i: int| 0 <= i < self.tiles.len() ==> (#[trigger] self.tiles[i]).len() == 64
    }
}

impl PatternMem {
    pub fn new(bits_per_pixel: BitsPerPixel) -> (r: Self)
        ensures
            r@.bits_per_pixel == bits_per_pixel,
            r@.start_addr == u16::MAX,
            r@.end_addr == u16::MAX,
            r@.tiles.len() == 0,
            r@ == empty_pattern(bits_per_pixel),
    {
        let r = PatternMem { bits_per_pixel: bits_per_pixel, start_addr: u16::MAX, end_addr: u16::MAX, tiles: Vec::new() };
        assert(r@.tiles =~= Seq::empty());
        r
    }

    /// Resize to `num_tiles` tiles, keeping those already there.
    fn resize_tiles(&mut self, num_tiles: usize)
        requires
            forall|i: int| 0 <= i < old(self).tiles@.len() ==> (#[trigger] old(self).tiles@[i])@.len() == 64,
        ensures
            final(self)@.tiles.len() == num_tiles,
            forall|i: int| 0 <= i < num_tiles ==> (#[trigger] final(self)@.tiles[i]).len() == 64,
            final(self)@.bits_per_pixel == old(self)@.bits_per_pixel,
            final(self)@.start_addr == old(self)@.start_addr,
            final(self)@.end_addr == old(self)@.end_addr,
    {
        while self.tiles.len() > num_tiles
            invariant
                forall|i: int| 0 <= i < self.tiles@.len() ==> (#[trigger] self.tiles@[i])@.len() == 64,
                self.bits_per_pixel == old(self).bits_per_pixel,
                self.start_addr == old(self).start_addr,
                self.end_addr == old(self).end_addr,
            decreases self.tiles@.len(),
        {
            self.tiles.pop();
        }
        while self.tiles.len() < num_tiles
            invariant
                self.tiles@.len() <= num_tiles,
                forall|i: int| 0 <= i < self.tiles@.len() ==> (#[trigger] self.tiles@[i])@.len() == 64,
                self.bits_per_pixel == old(self).bits_per_pixel,
                self.start_addr == old(self).start_addr,
                self.end_addr == old(self).end_addr,
            decreases num_tiles - self.tiles@.len(),
        {
            self.tiles.push(Tile::new());
        }
        proof {
            assert forall|i: int| 0 <= i < num_tiles implies (#[trigger] self@.tiles[i]).len() == 64 by {
                assert(self@.tiles[i] == self.tiles@[i]@);
            }
        }
    }

    /// Set the start address and the height in rows of 16 tiles.
    pub fn set_addr(&mut self, start_addr: u16, height: u16)
        requires
            height >= 1,
            16 * height * tile_bytes(old(self)@.bits_per_pixel.spec_bits()) <= u16::MAX,
            start_addr + 16 * height * tile_bytes(old(self)@.bits_per_pixel.spec_bits()) - 1 <= u16::MAX,
            forall|i: int| 0 <= i < old(self)@.tiles.len() ==> (#[trigger] old(self)@.tiles[i]).len() == 64,
        ensures
            final(self)@.wf(),
            final(self)@.bits_per_pixel == old(self)@.bits_per_pixel,
            final(self)@.start_addr == start_addr,
            final(self)@.tiles.len() == 16 * height,
    {
        proof {
            assert forall|i: int| 0 <= i < self.tiles@.len() implies (#[trigger] self.tiles@[i])@.len() == 64 by {
                assert(old(self)@.tiles[i] == self.tiles@[i]@);
            }
        }
        let bytes: u16 = match self.bits_per_pixel {
            BitsPerPixel::_2 => 16,
            BitsPerPixel::_4 => 32,
            BitsPerPixel::_8 => 64,
        };
        assert(bytes == tile_bytes(self.bits_per_pixel.spec_bits()));
        assert(16 * height <= 16 * height * bytes <= u16::MAX) by (nonlinear_arith)
            requires
                bytes >= 16,
                16 * height * bytes <= u16::MAX,
                height >= 1,
        ;
        let num_tiles = PATTERN_MEM_WIDTH_TILES * height;
        let size = num_tiles * bytes - 1;
        self.start_addr = start_addr;
        self.end_addr = start_addr + size;
        self.resize_tiles(num_tiles as usize);
    }

    /// Set the address for sprite memory: always 4 bits per pixel, 16 rows.
    pub fn set_addr_obj(&mut self, start_addr: u16)
        requires
            old(self)@.bits_per_pixel == BitsPerPixel::_4,
            start_addr <= u16::MAX - 8191,
            forall|i: int| 0 <= i < old(self)@.tiles.len() ==> (#[trigger] old(self)@.tiles[i]).len() == 64,
        ensures
            final(self)@.wf(),
            final(self)@.bits_per_pixel == old(self)@.bits_per_pixel,
            final(self)@.start_addr == start_addr,
            final(self)@.tiles.len() == 256,
    {
        proof {
            assert forall|i: int| 0 <= i < self.tiles@.len() implies (#[trigger] self.tiles@[i])@.len() == 64 by {
                assert(old(self)@.tiles[i] == self.tiles@[i]@);
            }
        }
        let num_tiles = PATTERN_MEM_WIDTH_TILES * OBJ_PATTERN_MEM_HEIGHT_TILES;
        let size = (num_tiles * 32) - 1;
        self.start_addr = start_addr;
        self.end_addr = start_addr + size;
        self.resize_tiles(num_tiles as usize);
    }

    pub fn get_bits_per_pixel(&self) -> (r: BitsPerPixel)
        ensures
            r == self@.bits_per_pixel,
    {
        self.bits_per_pixel
    }

    pub fn get_start_addr(&self) -> (r: u16)
        ensures
            r == self@.start_addr,
    {
        self.start_addr
    }

    /// Decode tile `t` of the pattern data at `start`.
    fn decode_tile(data: &[u8], start: usize, bpp: u8, t: usize) -> (r: Tile)
        requires
            bpp == 2 || bpp == 4 || bpp == 8,
            start + (t + 1) * tile_bytes(bpp as nat) <= data@.len(),
        ensures
            tile_decoded(r@, data@, start as int, bpp as nat, t as int),
    {
        let bytes = 8 * (bpp as usize);
        proof {
            assert(start + t * bytes + bytes <= data@.len()) by (nonlinear_arith)
                requires
                    start + (t + 1) * tile_bytes(bpp as nat) <= data@.len(),
                    bytes == tile_bytes(bpp as nat),
            ;
        }
        let len = data.len();
        let base = start + t * bytes;
        let mut texels: Vec<u8> = Vec::new();
        let mut y: usize = 0;
        while y < 8
            invariant
                y <= 8,
                bpp == 2 || bpp == 4 || bpp == 8,
                bytes == tile_bytes(bpp as nat),
                base == start + t * bytes,
                base + bytes <= data@.len(),
                len == data@.len(),
                texels@.len() == y * 8,
                forall|xx: int, yy: int, p: int|
                    0 <= xx < 8 && 0 <= yy < y && 0 <= p < 8 ==> #[trigger] ((texels@[texel_index(xx, yy)] >> (p as u8)) & 1)
                        == decoded_bit(data@, start as int, bpp as nat, t as int, xx, yy, p),
            decreases 8 - y,
        {
            let mut x: usize = 0;
            while x < 8
                invariant
                    x <= 8,
                    y < 8,
                    bpp == 2 || bpp == 4 || bpp == 8,
                    bytes == tile_bytes(bpp as nat),
                    base == start + t * bytes,
                    base + bytes <= data@.len(),
                    len == data@.len(),
                len == data@.len(),
                    texels@.len() == y * 8 + x,
                    forall|xx: int, yy: int, p: int|
                        0 <= yy < 8 && 0 <= xx < 8 && yy * 8 + xx < y * 8 + x && 0 <= p < 8 ==> #[trigger] ((
                        texels@[texel_index(xx, yy)] >> (p as u8)) & 1) == decoded_bit(
                            data@,
                            start as int,
                            bpp as nat,
                            t as int,
                            xx,
                            yy,
                            p,
                        ),
                decreases 8 - x,
            {
                let mut texel: u8 = 0;
                let mut p: u8 = 0;
                proof {
                    assert forall|q: int| 0 <= q < 8 implies #[trigger] ((texel >> (q as u8)) & 1) == 0 by {
                        lemma_zero_bits(q as u8);
                    }
                }
                while p < bpp
                    invariant
                        p <= bpp,
                        x < 8,
                        y < 8,
                        bpp == 2 || bpp == 4 || bpp == 8,
                        bytes == tile_bytes(bpp as nat),
                        base == start + t * bytes,
                        base + bytes <= data@.len(),
                        len == data@.len(),
                    len == data@.len(),
                len == data@.len(),
                        forall|q: int|
                            0 <= q < 8 ==> #[trigger] ((texel >> (q as u8)) & 1) == if q < p {
                                decoded_bit(data@, start as int, bpp as nat, t as int, x as int, y as int, q)
                            } else {
                                0
                            },
                    decreases bpp - p,
                {
                    let off = ((p / 2) as usize) * 16 + y * 2 + (p % 2) as usize;
                    assert(off < bytes);
                    let byte = data[base + off];
                    let sh: u8 = 7 - x as u8;
                    let bit = (byte >> sh) & 1;
                    assert(bit <= 1) by (bit_vector)
                        requires
                            bit == (byte >> sh) & 1,
                    ;
                    let ghost old_texel = texel;
                    texel = texel | (bit << p);
                    proof {
                        assert forall|q: int| 0 <= q < 8 implies #[trigger] ((texel >> (q as u8)) & 1) == if q
                            < p + 1 {
                            decoded_bit(data@, start as int, bpp as nat, t as int, x as int, y as int, q)
                        } else {
                            0
                        } by {
                            lemma_or_bit(old_texel, bit, p, q as u8);
                            if q == p {
                                assert(((old_texel >> (q as u8)) & 1) == 0);
                                assert(plane_offset(bpp as nat, t as int, y as int, q) == t * bytes + off);
                                assert(start + plane_offset(bpp as nat, t as int, y as int, q) == base + off);
                                assert((7 - x) as u8 == sh);
                            }
                        }
                    }
                    p = p + 1;
                }
                proof {
                    assert forall|q: int| 0 <= q < 8 implies #[trigger] ((texel >> (q as u8)) & 1)
                        == decoded_bit(data@, start as int, bpp as nat, t as int, x as int, y as int, q) by {
                        if q >= bpp {
                            assert(((texel >> (q as u8)) & 1) == 0);
                        }
                    }
                }
                texels.push(texel);
                x = x + 1;
            }
            y = y + 1;
        }
        Tile { data: texels }
    }

    /// Decode every tile from `data` (all of VRAM) between the start and
    /// end addresses.
    pub fn make_tiles(&mut self, data: &[u8])
        requires
            old(self)@.wf(),
            old(self)@.end_addr < data@.len(),
        ensures
            final(self)@.wf(),
            final(self)@.bits_per_pixel == old(self)@.bits_per_pixel,
            final(self)@.start_addr == old(self)@.start_addr,
            final(self)@.end_addr == old(self)@.end_addr,
            final(self)@.tiles.len() == old(self)@.tiles.len(),
            forall|t: int|
                0 <= t < final(self)@.tiles.len() ==> tile_decoded(
                    #[trigger] final(self)@.tiles[t],
                    data@,
                    old(self)@.start_addr as int,
                    old(self)@.bits_per_pixel.spec_bits(),
                    t,
                ),
    {
        let bpp = self.bits_per_pixel.bits();
        let n = self.tiles.len();
        let start = self.start_addr as usize;
        let ghost end = old(self)@.end_addr as int;
        let mut tiles: Vec<Tile> = Vec::new();
        let mut t: usize = 0;
        while t < n
            invariant
                t <= n,
                n == old(self)@.tiles.len(),
                bpp == old(self)@.bits_per_pixel.spec_bits(),
                bpp == 2 || bpp == 4 || bpp == 8,
                start == old(self)@.start_addr,
                end - start + 1 == n * tile_bytes(bpp as nat),
                end < data@.len(),
                tiles@.len() == t,
                forall|i: int| 0 <= i < t ==> tile_decoded(
                    #[trigger] tiles@[i]@,
                    data@,
                    start as int,
                    bpp as nat,
                    i,
                ),
            decreases n - t,
        {
            proof {
                assert(start + (t + 1) * tile_bytes(bpp as nat) <= data@.len()) by (nonlinear_arith)
                    requires
                        t < n,
                        end - start + 1 == n * tile_bytes(bpp as nat),
                        end < data@.len(),
                ;
            }
            let tile = Self::decode_tile(data, start, bpp, t);
            tiles.push(tile);
            t = t + 1;
        }
        self.tiles = tiles;
        proof {
            assert forall|i: int| 0 <= i < self@.tiles.len() implies (#[trigger] self@.tiles[i]).len() == 64 by {
                assert(tile_decoded(tiles@[i]@, data@, start as int, bpp as nat, i));
            }
        }
    }

    /// A tile, by number modulo the number of tiles.
    pub fn ref_tile(&self, num: usize) -> (r: &Tile)
        requires
            self@.tiles.len() > 0,
        ensures
            r@ == self@.tiles[(num as int) % (self@.tiles.len() as int)],
    {
        &self.tiles[num % self.tiles.len()]
    }
}

} // verus!
