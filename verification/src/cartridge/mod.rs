use vstd::prelude::*;

pub mod mbc0;
pub mod mbc1;
pub mod mbc3;
pub mod mbc5;

pub use mbc0::{Mbc0, Mbc0View};
pub use mbc1::{Mbc1, Mbc1View};
pub use mbc3::{Mbc3, Mbc3View};
pub use mbc5::{Mbc5, Mbc5View};

verus! {

/// Byte `i` of `s`, or 0xFF (open bus) when `i` lies outside it.
pub open spec fn byte_or_ff(s: Seq<u8>, i: int) -> u8 {
    if 0 <= i < s.len() {
        s[i]
    } else {
        0xFF
    }
}

/// Reads `s[i]` with open-bus semantics for indices past the end.
pub fn get_or_ff(s: &Vec<u8>, i: usize) -> (r: u8)
    ensures
        r == byte_or_ff(s@, i as int),
{
    if i < s.len() {
        s[i]
    } else {
        0xFF
    }
}

/// `s` with the first `min(s.len(), data.len())` bytes replaced from `data`.
pub open spec fn overlay(s: Seq<u8>, data: Seq<u8>) -> Seq<u8> {
    Seq::new(s.len(), |i: int| if i < data.len() { data[i] } else { s[i] })
}

/// Copies the leading bytes of `data` over `ram`, as far as both reach.
pub fn overlay_into(ram: &mut Vec<u8>, data: &[u8])
    ensures
        final(ram)@ == overlay(old(ram)@, data@),
{
    let len = if ram.len() < data.len() { ram.len() } else { data.len() };
    let mut i: usize = 0;
    while i < len
        invariant
            i <= len,
            len <= ram.len(),
            len <= data.len(),
            ram.len() == old(ram).len(),
            forall|j: int| 0 <= j < i ==> ram@[j] == data@[j],
            forall|j: int| i <= j < ram.len() ==> ram@[j] == old(ram)@[j],
        decreases len - i,
    {
        ram.set(i, data[i]);
        i = i + 1;
    }
    assert(ram@ =~= overlay(old(ram)@, data@));
}

/// A zero-filled byte vector of length `n`.
pub fn zeroed(n: usize) -> (r: Vec<u8>)
    ensures
        r@ == Seq::new(n as nat, |i: int| 0u8),
{
    let mut v: Vec<u8> = Vec::with_capacity(n);
    let mut i: usize = 0;
    while i < n
        invariant
            i <= n,
            v@ == Seq::new(i as nat, |j: int| 0u8),
        decreases n - i,
    {
        v.push(0);
        i = i + 1;
        assert(v@ =~= Seq::new(i as nat, |j: int| 0u8));
    }
    v
}

/// Common interface for all cartridge types.
pub trait Cartridge {
    fn read(&self, addr: u16) -> u8;

    fn write(&mut self, addr: u16, val: u8);

    /// Whether external RAM can be accessed at `addr`: addresses below 0xA000
    /// have no place in a RAM bank that is enabled and present.
    spec fn ram_access_ok(&self, addr: u16) -> bool;

    fn ram_read(&self, addr: u16) -> u8
        requires
            self.ram_access_ok(addr),
    ;

    fn ram_write(&mut self, addr: u16, val: u8)
        requires
            old(self).ram_access_ok(addr),
    ;

    /// The battery-backed state to persist (empty when there is none).
    fn save_ram(&self) -> Vec<u8>;

    /// Restore state produced by `save_ram`.
    fn load_ram(&mut self, data: &[u8]);
}

/// Parsed Game Boy cartridge header (0x0100–0x014F).
pub struct CartridgeHeader {
    pub title: String,
    pub cartridge_type: u8,
    pub rom_size: u8,
    pub ram_size: u8,
    pub cgb_flag: u8,
}

/// What `String::from_utf8_lossy` makes of a byte sequence.
pub uninterp spec fn utf8_lossy(bytes: Seq<u8>) -> Seq<char>;

/// Decodes `bytes` as UTF-8 with `String::from_utf8_lossy`, which replaces
/// every invalid sequence by U+FFFD. The contract names the result and states
/// the one fact used here, from the function's documentation: bytes that are
/// all ASCII decode to the same characters. What other inputs give is not stated.
#[verifier::external_body]
fn lossy_string(bytes: &[u8]) -> (r: String)
    ensures
        r@ == utf8_lossy(bytes@),
        (forall|i: int| 0 <= i < bytes@.len() ==> #[trigger] bytes@[i] < 0x80) ==> r@ == bytes@.map_values(
            |b: u8| b as char,
        ),
{
    String::from_utf8_lossy(bytes).into_owned()
}

/// The header title bytes (0x0134–0x0143) with NUL bytes trimmed from both ends.
pub open spec fn trimmed_title(rom: Seq<u8>) -> Seq<u8> {
    let t = rom.subrange(0x0134, 0x0144);
    if title_start(t) == t.len() {
        Seq::empty()
    } else {
        t.subrange(title_start(t), title_end(t))
    }
}

/// Index of the first non-NUL byte of `t` (its length if there is none).
pub open spec fn title_start(t: Seq<u8>) -> int
    decreases t.len(),
{
    if t.len() == 0 || t[0] != 0 {
        0
    } else {
        1 + title_start(t.subrange(1, t.len() as int))
    }
}

/// One past the last non-NUL byte of `t`, but never before `title_start(t)`.
pub open spec fn title_end(t: Seq<u8>) -> int
    decreases t.len(),
{
    if t.len() == 0 || t[t.len() - 1] != 0 {
        t.len() as int
    } else {
        title_end(t.subrange(0, t.len() - 1))
    }
}

proof fn lemma_title_start(t: Seq<u8>)
    ensures
        0 <= title_start(t) <= t.len(),
        forall|i: int| 0 <= i < title_start(t) ==> t[i] == 0,
        title_start(t) < t.len() ==> t[title_start(t)] != 0,
    decreases t.len(),
{
    if t.len() > 0 && t[0] == 0 {
        let u = t.subrange(1, t.len() as int);
        lemma_title_start(u);
        assert forall|i: int| 0 <= i < title_start(t) implies t[i] == 0 by {
            if i > 0 {
                assert(t[i] == u[i - 1]);
            }
        }
    }
}

proof fn lemma_title_end(t: Seq<u8>)
    ensures
        0 <= title_end(t) <= t.len(),
        forall|i: int| title_end(t) <= i < t.len() ==> t[i] == 0,
        title_end(t) > 0 ==> t[title_end(t) - 1] != 0,
    decreases t.len(),
{
    if t.len() > 0 && t[t.len() - 1] == 0 {
        let u = t.subrange(0, t.len() - 1);
        lemma_title_end(u);
        assert forall|i: int| title_end(t) <= i < t.len() implies t[i] == 0 by {
            if i < t.len() - 1 {
                assert(t[i] == u[i]);
            }
        }
    }
}

impl CartridgeHeader {
    pub open spec fn is_gbc_spec(self) -> bool {
        self.cgb_flag == 0x80 || self.cgb_flag == 0xC0
    }

    pub fn parse(rom: &[u8]) -> (r: Self)
        requires
            rom.len() >= 0x14A,
        ensures
            r.title@ == utf8_lossy(trimmed_title(rom@)),
            r.cartridge_type == rom@[0x0147],
            r.rom_size == rom@[0x0148],
            r.ram_size == rom@[0x0149],
            r.cgb_flag == rom@[0x0143],
    {
        let ghost t = rom@.subrange(0x0134, 0x0144);
        proof {
            lemma_title_start(t);
            lemma_title_end(t);
        }
        // Trim NUL padding from the front ...
        let mut start: usize = 0x0134;
        while start < 0x0144 && rom[start] == 0
            invariant
                0x0134 <= start <= 0x0144,
                rom.len() >= 0x14A,
                t == rom@.subrange(0x0134, 0x0144),
                forall|i: int| 0x0134 <= i < start ==> rom@[i] == 0,
            decreases 0x0144 - start,
        {
            start = start + 1;
        }
        // ... and from the back.
        let mut end: usize = 0x0144;
        while end > start && rom[end - 1] == 0
            invariant
                0x0134 <= start <= end <= 0x0144,
                rom.len() >= 0x14A,
                t == rom@.subrange(0x0134, 0x0144),
                forall|i: int| 0x0134 <= i < start ==> rom@[i] == 0,
                forall|i: int| end <= i < 0x0144 ==> rom@[i] == 0,
                start < 0x0144 ==> rom@[start as int] != 0,
            decreases end - start,
        {
            end = end - 1;
        }
        proof {
            let s = title_start(t);
            let e = title_end(t);
            // Both scans stop at the same first and last non-NUL bytes.
            if s < start - 0x0134 {
                assert(t[s] == rom@[s + 0x0134]);
            }
            if start - 0x0134 < s {
                assert(t[start - 0x0134] == rom@[start as int]);
            }
            assert(s == start - 0x0134);
            if s < t.len() {
                if e < end - 0x0134 {
                    assert(t[end - 1 - 0x0134] == rom@[end - 1]);
                }
                if end - 0x0134 < e {
                    assert(t[e - 1] == rom@[e - 1 + 0x0134]);
                }
                assert(e == end - 0x0134);
            } else {
                assert(end == start);
                if e > 0 {
                    assert(t[e - 1] == 0);
                }
            }
            assert(trimmed_title(rom@) =~= rom@.subrange(start as int, end as int));
        }
        let title_bytes = slice_range(rom, start, end);
        let title = lossy_string(title_bytes.as_slice());
        Self {
            title,
            cartridge_type: rom[0x0147],
            rom_size: rom[0x0148],
            ram_size: rom[0x0149],
            cgb_flag: rom[0x0143],
        }
    }

    pub fn is_gbc(&self) -> (r: bool)
        ensures
            r == self.is_gbc_spec(),
    {
        self.cgb_flag == 0x80 || self.cgb_flag == 0xC0
    }
}

/// Copy of `s[start..end]`.
pub fn slice_range(s: &[u8], start: usize, end: usize) -> (r: Vec<u8>)
    requires
        start <= end <= s.len(),
    ensures
        r@ == s@.subrange(start as int, end as int),
{
    let mut v: Vec<u8> = Vec::new();
    let mut i = start;
    while i < end
        invariant
            start <= i <= end <= s.len(),
            v@ == s@.subrange(start as int, i as int),
        decreases end - i,
    {
        v.push(s[i]);
        i = i + 1;
        assert(v@ =~= s@.subrange(start as int, i as int));
    }
    v
}

/// Cartridge types `load` knows how to drive.
pub open spec fn supported_type(t: u8) -> bool {
    t == 0x00 || (0x01 <= t <= 0x03) || (0x0F <= t <= 0x13)
}

/// A cartridge of any of the supported mapper kinds.
pub enum Cart {
    Mbc0(Mbc0),
    Mbc1(Mbc1),
    Mbc3(Mbc3),
    Mbc5(Mbc5),
}

/// Abstract state of a cartridge.
pub enum CartView {
    Mbc0(Mbc0View),
    Mbc1(Mbc1View),
    Mbc3(Mbc3View),
    Mbc5(Mbc5View),
}

impl View for Cart {
    type V = CartView;

    open spec fn view(&self) -> CartView {
        match self {
            Cart::Mbc0(c) => CartView::Mbc0(c@),
            Cart::Mbc1(c) => CartView::Mbc1(c@),
            Cart::Mbc3(c) => CartView::Mbc3(c@),
            Cart::Mbc5(c) => CartView::Mbc5(c@),
        }
    }
}

impl CartView {
    pub open spec fn read(self, addr: u16) -> u8 {
        match self {
            CartView::Mbc0(c) => c.read(addr),
            CartView::Mbc1(c) => c.read(addr),
            CartView::Mbc3(c) => c.read(addr),
            CartView::Mbc5(c) => c.read(addr),
        }
    }

    /// State after a write to the control area, `now` being the wall-clock
    /// time (in Unix seconds) that an MBC3 clock latch reads.
    pub open spec fn write(self, addr: u16, val: u8, now: u64) -> CartView {
        match self {
            CartView::Mbc0(c) => self,
            CartView::Mbc1(c) => CartView::Mbc1(c.write(addr, val)),
            CartView::Mbc3(c) => CartView::Mbc3(c.write(addr, val, now)),
            CartView::Mbc5(c) => CartView::Mbc5(c.write(addr, val)),
        }
    }

    pub open spec fn ram_read(self, addr: u16) -> u8 {
        match self {
            CartView::Mbc0(c) => 0xFF,
            CartView::Mbc1(c) => c.ram_read(addr),
            CartView::Mbc3(c) => c.ram_read(addr),
            CartView::Mbc5(c) => c.ram_read(addr),
        }
    }

    /// State after a write to external RAM; `now` is read by MBC3 clock registers.
    pub open spec fn ram_write(self, addr: u16, val: u8, now: u64) -> CartView {
        match self {
            CartView::Mbc0(c) => self,
            CartView::Mbc1(c) => CartView::Mbc1(c.ram_write(addr, val)),
            CartView::Mbc3(c) => CartView::Mbc3(c.ram_write(addr, val, now)),
            CartView::Mbc5(c) => CartView::Mbc5(c.ram_write(addr, val)),
        }
    }
}

impl Cartridge for Cart {
    open spec fn ram_access_ok(&self, addr: u16) -> bool {
        match self {
            Cart::Mbc0(c) => c.ram_access_ok(addr),
            Cart::Mbc1(c) => c.ram_access_ok(addr),
            Cart::Mbc3(c) => c.ram_access_ok(addr),
            Cart::Mbc5(c) => c.ram_access_ok(addr),
        }
    }

    fn read(&self, addr: u16) -> (r: u8)
        ensures
            r == self@.read(addr),
    {
        match self {
            Cart::Mbc0(c) => c.read(addr),
            Cart::Mbc1(c) => c.read(addr),
            Cart::Mbc3(c) => c.read(addr),
            Cart::Mbc5(c) => c.read(addr),
        }
    }

    fn write(&mut self, addr: u16, val: u8)
        ensures
            exists|now: u64| final(self)@ == old(self)@.write(addr, val, now),
    {
        let ghost mut now_witness: u64 = 0;
        match self {
            Cart::Mbc0(c) => c.write(addr, val),
            Cart::Mbc1(c) => c.write(addr, val),
            Cart::Mbc3(c) => {
                let ghost v0 = c@;
                c.write(addr, val);
                proof {
                    now_witness = choose|now: u64| c@ == v0.write(addr, val, now);
                }
            },
            Cart::Mbc5(c) => c.write(addr, val),
        }
        assert(self@ == old(self)@.write(addr, val, now_witness));
    }

    fn ram_read(&self, addr: u16) -> (r: u8)
        ensures
            r == self@.ram_read(addr),
    {
        match self {
            Cart::Mbc0(c) => c.ram_read(addr),
            Cart::Mbc1(c) => c.ram_read(addr),
            Cart::Mbc3(c) => c.ram_read(addr),
            Cart::Mbc5(c) => c.ram_read(addr),
        }
    }

    fn ram_write(&mut self, addr: u16, val: u8)
        ensures
            exists|now: u64| final(self)@ == old(self)@.ram_write(addr, val, now),
    {
        let ghost mut now_witness: u64 = 0;
        match self {
            Cart::Mbc0(c) => c.ram_write(addr, val),
            Cart::Mbc1(c) => c.ram_write(addr, val),
            Cart::Mbc3(c) => {
                let ghost v0 = c@;
                c.ram_write(addr, val);
                proof {
                    now_witness = choose|now: u64| c@ == v0.ram_write(addr, val, now);
                }
            },
            Cart::Mbc5(c) => c.ram_write(addr, val),
        }
        assert(self@ == old(self)@.ram_write(addr, val, now_witness));
    }

    fn save_ram(&self) -> (r: Vec<u8>)
        ensures
            match self@ {
                CartView::Mbc0(c) => r@ == Seq::<u8>::empty(),
                CartView::Mbc1(c) => r@ == c.ram,
                CartView::Mbc3(c) => r@ == c.save_image(),
                CartView::Mbc5(c) => r@ == Seq::<u8>::empty(),
            },
    {
        match self {
            Cart::Mbc0(c) => c.save_ram(),
            Cart::Mbc1(c) => c.save_ram(),
            Cart::Mbc3(c) => c.save_ram(),
            Cart::Mbc5(c) => c.save_ram(),
        }
    }

    fn load_ram(&mut self, data: &[u8])
        ensures
            match (old(self)@, final(self)@) {
                (CartView::Mbc0(a), CartView::Mbc0(b)) => b == a,
                (CartView::Mbc1(a), CartView::Mbc1(b)) => b == Mbc1View { ram: overlay(a.ram, data@), ..a },
                (CartView::Mbc3(a), CartView::Mbc3(b)) => b == a.load_image(data@),
                (CartView::Mbc5(a), CartView::Mbc5(b)) => b == a,
                _ => false,
            },
    {
        match self {
            Cart::Mbc0(c) => c.load_ram(data),
            Cart::Mbc1(c) => c.load_ram(data),
            Cart::Mbc3(c) => c.load_ram(data),
            Cart::Mbc5(c) => c.load_ram(data),
        }
    }
}

/// The cartridge that `load` builds for `rom`, apart from the MBC3 clock origin.
pub open spec fn loaded_kind(rom: Seq<u8>, c: CartView) -> bool {
    let t = rom[0x0147];
    let ram_size = rom[0x0149];
    if t == 0x00 {
        c == CartView::Mbc0(Mbc0View { rom })
    } else if 0x01 <= t <= 0x03 {
        c == CartView::Mbc1(Mbc1View::initial(rom, ram_size))
    } else {
        c matches CartView::Mbc3(m) && m == Mbc3View::initial(rom, ram_size, m.rtc.origin)
    }
}

/// Create the appropriate cartridge implementation based on the ROM header.
pub fn load(rom: Vec<u8>) -> (r: Cart)
    requires
        rom.len() >= 0x14A,
        supported_type(rom@[0x0147]),
    ensures
        loaded_kind(rom@, r@),
{
    let cartridge_type = rom[0x0147];
    let ram_size = rom[0x0149];
    if cartridge_type == 0x00 {
        Cart::Mbc0(Mbc0::new(rom))
    } else if cartridge_type <= 0x03 {
        Cart::Mbc1(Mbc1::new(rom, ram_size))
    } else {
        Cart::Mbc3(Mbc3::new(rom, ram_size))
    }
}

/// Loading what `save_ram` produced restores the battery-backed state: the
/// external RAM of an MBC1 cartridge, the RAM and the clock of an MBC3 one.
pub proof fn lemma_save_load_cart(c: CartView)
    ensures
        c matches CartView::Mbc1(a) ==> (Mbc1View { ram: overlay(a.ram, a.ram), ..a }) == a,
        c matches CartView::Mbc3(a) ==> a.load_image(a.save_image()) == a,
{
    match c {
        CartView::Mbc1(a) => {
            assert(overlay(a.ram, a.ram) =~= a.ram);
        },
        CartView::Mbc3(a) => {
            mbc3::lemma_save_load(a);
        },
        _ => {},
    }
}

} // verus!
