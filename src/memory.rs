use vstd::prelude::*;
use crate::input::Input;

verus! {

pub const BOOT_ROM_SIZE: usize = 256;
pub const VRAM_SIZE: usize = 8192;
pub const WRAM_SIZE: usize = 8192;
pub const OAM_SIZE: usize = 160;
pub const HRAM_SIZE: usize = 127;
pub const IO_SIZE: usize = 128;

/// Abstract contents of the address space and of the timer state.
pub ghost struct MemoryView {
    pub boot_rom: Seq<u8>,
    pub rom: Seq<u8>,
    pub vram: Seq<u8>,
    pub wram: Seq<u8>,
    pub oam: Seq<u8>,
    pub hram: Seq<u8>,
    pub io: Seq<u8>,
    pub boot_rom_enabled: bool,
    pub ie: u8,
    /// Internal divider; DIV shows bits 15..8.
    pub div_counter: u16,
    /// Cycles gathered toward the next TIMA increment.
    pub timer_counter: u16,
    pub joypad: Input,
}

/// Cycles per TIMA increment selected by TAC bits 1..0.
pub open spec fn timer_threshold(tac: u8) -> int {
    let sel = tac % 4;
    if sel == 0 {
        1024
    } else if sel == 1 {
        16
    } else if sel == 2 {
        64
    } else {
        256
    }
}

impl MemoryView {
    /// Cleared regions, a zero-filled 32 KiB cartridge, no boot overlay.
    pub open spec fn initial() -> MemoryView {
        MemoryView {
            boot_rom: Seq::new(256, |i: int| 0u8),
            rom: Seq::new(0x8000, |i: int| 0u8),
            vram: Seq::new(8192, |i: int| 0u8),
            wram: Seq::new(8192, |i: int| 0u8),
            oam: Seq::new(160, |i: int| 0u8),
            hram: Seq::new(127, |i: int| 0u8),
            io: Seq::new(128, |i: int| 0u8),
            boot_rom_enabled: false,
            ie: 0,
            div_counter: 0,
            timer_counter: 0,
            joypad: Input::released(),
        }
    }

    pub open spec fn wf(self) -> bool {
        &&& self.boot_rom.len() == BOOT_ROM_SIZE
        &&& self.vram.len() == VRAM_SIZE
        &&& self.wram.len() == WRAM_SIZE
        &&& self.oam.len() == OAM_SIZE
        &&& self.hram.len() == HRAM_SIZE
        &&& self.io.len() == IO_SIZE
        &&& self.timer_counter < 1024
    }

    /// Cartridge byte, or open bus past the end of the image.
    pub open spec fn rom_byte(self, a: int) -> u8 {
        if a < self.rom.len() {
            self.rom[a]
        } else {
            0xFF
        }
    }

    /// Register `i` of the I/O page as read.
    pub open spec fn read_io(self, i: int) -> u8 {
        if i == 0 {
            self.joypad.joypad_value(self.io[0])
        } else if i == 4 {
            (self.div_counter / 256) as u8
        } else {
            self.io[i]
        }
    }

    /// The byte the bus returns at `a`.
    pub open spec fn read(self, a: u16) -> u8 {
        if a < 0x0100 {
            if self.boot_rom_enabled {
                self.boot_rom[a as int]
            } else {
                self.rom_byte(a as int)
            }
        } else if a < 0x8000 {
            self.rom_byte(a as int)
        } else if a < 0xA000 {
            self.vram[a - 0x8000]
        } else if a < 0xC000 {
            0xFF
        } else if a < 0xE000 {
            self.wram[a - 0xC000]
        } else if a < 0xFE00 {
            self.wram[a - 0xE000]
        } else if a < 0xFEA0 {
            self.oam[a - 0xFE00]
        } else if a < 0xFF00 {
            0xFF
        } else if a < 0xFF80 {
            self.read_io(a - 0xFF00)
        } else if a < 0xFFFF {
            self.hram[a - 0xFF80]
        } else {
            self.ie
        }
    }

    /// OAM after a DMA from page `v`: 160 bytes read from `v << 8`.
    pub open spec fn dma_oam(self, v: u8) -> Seq<u8> {
        Seq::new(OAM_SIZE as nat, |k: int| self.read((v as int * 256 + k) as u16))
    }

    /// Effect of writing `v` to I/O register `i`.
    pub open spec fn write_io(self, i: int, v: u8) -> MemoryView {
        if i == 4 {
            MemoryView { div_counter: 0, ..self }
        } else {
            let m = MemoryView { io: self.io.update(i, v), ..self };
            if i == 0x46 {
                MemoryView { oam: m.dma_oam(v), ..m }
            } else if i == 0x50 && v != 0 {
                MemoryView { boot_rom_enabled: false, ..m }
            } else {
                m
            }
        }
    }

    /// Effect of writing `v` at `a`.
    pub open spec fn write(self, a: u16, v: u8) -> MemoryView {
        if a < 0x8000 {
            self
        } else if a < 0xA000 {
            MemoryView { vram: self.vram.update(a - 0x8000, v), ..self }
        } else if a < 0xC000 {
            self
        } else if a < 0xE000 {
            MemoryView { wram: self.wram.update(a - 0xC000, v), ..self }
        } else if a < 0xFE00 {
            MemoryView { wram: self.wram.update(a - 0xE000, v), ..self }
        } else if a < 0xFEA0 {
            MemoryView { oam: self.oam.update(a - 0xFE00, v), ..self }
        } else if a < 0xFF00 {
            self
        } else if a < 0xFF80 {
            self.write_io(a - 0xFF00, v)
        } else if a < 0xFFFF {
            MemoryView { hram: self.hram.update(a - 0xFF80, v), ..self }
        } else {
            MemoryView { ie: v, ..self }
        }
    }

    /// Little-endian word at `a`, the high byte from `a + 1` with wrap.
    pub open spec fn read_word(self, a: u16) -> u16 {
        (self.read(((a + 1) % 0x10000) as u16) as int * 256 + self.read(a) as int) as u16
    }

    pub open spec fn write_word(self, a: u16, v: u16) -> MemoryView {
        self.write(a, (v % 256) as u8).write(((a + 1) % 0x10000) as u16, (v / 256) as u8)
    }

    /// One TIMA increment: on overflow TIMA is reloaded from TMA and IF bit 2 is set.
    pub open spec fn timer_increment(self) -> MemoryView {
        if self.io[5] == 0xFF {
            MemoryView { io: self.io.update(5, self.io[6]).update(0x0F, self.io[0x0F] | 0x04), ..self }
        } else {
            MemoryView { io: self.io.update(5, (self.io[5] + 1) as u8), ..self }
        }
    }

    pub open spec fn timer_increments(self, n: nat) -> MemoryView
        decreases n,
    {
        if n == 0 {
            self
        } else {
            self.timer_increments((n - 1) as nat).timer_increment()
        }
    }

    /// Timer state after `cycles` T-cycles.
    pub open spec fn ticked(self, cycles: u8) -> MemoryView {
        let m = MemoryView { div_counter: ((self.div_counter + cycles) % 0x10000) as u16, ..self };
        let tac = self.io[7];
        if tac & 0x04 == 0 {
            m
        } else {
            let total = self.timer_counter + cycles;
            let t = timer_threshold(tac);
            MemoryView { timer_counter: (total % t) as u16, ..m }.timer_increments((total / t) as nat)
        }
    }
}

/// The memory map of the machine.
pub struct Memory {
    boot_rom: Vec<u8>,
    rom: Vec<u8>,
    vram: Vec<u8>,
    wram: Vec<u8>,
    oam: Vec<u8>,
    hram: Vec<u8>,
    io: Vec<u8>,
    boot_rom_enabled: bool,
    ie_register: u8,
    div_counter: u16,
    timer_counter: u16,
    joypad: Input,
}

impl View for Memory {
    type V = MemoryView;

    closed spec fn view(&self) -> MemoryView {
        MemoryView {
            boot_rom: self.boot_rom@,
            rom: self.rom@,
            vram: self.vram@,
            wram: self.wram@,
            oam: self.oam@,
            hram: self.hram@,
            io: self.io@,
            boot_rom_enabled: self.boot_rom_enabled,
            ie: self.ie_register,
            div_counter: self.div_counter,
            timer_counter: self.timer_counter,
            joypad: self.joypad,
        }
    }
}

/// Reads differ only where OAM differs.
proof fn lemma_read_outside_oam(m1: MemoryView, m2: MemoryView, a: u16)
    requires
        m2 == (MemoryView { oam: m2.oam, ..m1 }),
        !(0xFE00 <= a < 0xFEA0),
    ensures
        m1.read(a) == m2.read(a),
{
}

/// Echo RAM aliases work RAM: after writing `v` at an echo address, both that
/// address and the work RAM address 0x2000 below it read `v`.
pub proof fn lemma_echo_alias(m: MemoryView, a: u16, v: u8)
    requires
        m.wf(),
        0xE000 <= a < 0xFE00,
    ensures
        m.write(a, v).read(a) == v,
        m.write(a, v).read((a - 0x2000) as u16) == v,
{
}

/// After writing `v` to the DMA register, OAM byte `i` reads as the byte at
/// `(v << 8) + i`.
pub proof fn lemma_dma_copies(m: MemoryView, v: u8, i: int)
    requires
        m.wf(),
        0 <= i < OAM_SIZE,
    ensures
        m.write(0xFF46, v).read((0xFE00 + i) as u16) == m.write(0xFF46, v).read(
            (v as int * 256 + i) as u16,
        ),
{
    let mid = MemoryView { io: m.io.update(0x46, v), ..m };
    let after = m.write(0xFF46, v);
    assert(after == (MemoryView { oam: mid.dma_oam(v), ..mid }));
    let src = (v as int * 256 + i) as u16;
    if !(0xFE00 <= src < 0xFEA0) {
        lemma_read_outside_oam(mid, after, src);
    }
}

/// While the overlay is on, the low 256 addresses read the boot image.
pub proof fn lemma_boot_overlay_visible(m: MemoryView, a: u16)
    requires
        m.wf(),
        m.boot_rom_enabled,
        a < 0x100,
    ensures
        m.read(a) == m.boot_rom[a as int],
{
}

/// Writing zero to 0xFF50 leaves the overlay as it was; a non-zero write retires
/// it, and the low 256 addresses then read the cartridge.
pub proof fn lemma_boot_overlay_retire(m: MemoryView, v: u8, a: u16)
    requires
        m.wf(),
        a < 0x100,
    ensures
        v == 0 ==> m.write(0xFF50, v).boot_rom_enabled == m.boot_rom_enabled,
        v != 0 ==> !m.write(0xFF50, v).boot_rom_enabled,
        v != 0 ==> m.write(0xFF50, v).read(a) == m.rom_byte(a as int),
{
}

/// No write and no timer tick turns a retired overlay back on.
pub proof fn lemma_boot_overlay_stays_retired(m: MemoryView, a: u16, v: u8, cycles: u8)
    requires
        m.wf(),
        !m.boot_rom_enabled,
    ensures
        !m.write(a, v).boot_rom_enabled,
        !m.ticked(cycles).boot_rom_enabled,
{
    lemma_timer_keeps_overlay(m, cycles);
}

proof fn lemma_timer_increments_keep_overlay(m: MemoryView, n: nat)
    ensures
        m.timer_increments(n).boot_rom_enabled == m.boot_rom_enabled,
    decreases n,
{
    if n > 0 {
        lemma_timer_increments_keep_overlay(m, (n - 1) as nat);
    }
}

proof fn lemma_timer_keeps_overlay(m: MemoryView, cycles: u8)
    ensures
        m.ticked(cycles).boot_rom_enabled == m.boot_rom_enabled,
{
    let d = MemoryView { div_counter: ((m.div_counter + cycles) % 0x10000) as u16, ..m };
    let tac = m.io[7];
    if tac & 0x04 != 0 {
        let total = m.timer_counter + cycles;
        let t = timer_threshold(tac);
        lemma_timer_increments_keep_overlay(
            MemoryView { timer_counter: (total % t) as u16, ..d },
            (total / t) as nat,
        );
    }
}

impl Memory {
    /// Cleared memory with a blank 32 KiB cartridge and no boot overlay.
    pub fn new() -> (r: Self)
        ensures
            r@ == MemoryView::initial(),
            r@.wf(),
    {
        let r = Self {
            boot_rom: vec![0u8; BOOT_ROM_SIZE],
            rom: vec![0u8; 0x8000],
            vram: vec![0u8; VRAM_SIZE],
            wram: vec![0u8; WRAM_SIZE],
            oam: vec![0u8; OAM_SIZE],
            hram: vec![0u8; HRAM_SIZE],
            io: vec![0u8; IO_SIZE],
            boot_rom_enabled: false,
            ie_register: 0,
            div_counter: 0,
            timer_counter: 0,
            joypad: Input::new(),
        };
        assert(r@.boot_rom =~= Seq::new(256, |i: int| 0u8));
        assert(r@.rom =~= Seq::new(0x8000, |i: int| 0u8));
        assert(r@.vram =~= Seq::new(8192, |i: int| 0u8));
        assert(r@.wram =~= Seq::new(8192, |i: int| 0u8));
        assert(r@.oam =~= Seq::new(160, |i: int| 0u8));
        assert(r@.hram =~= Seq::new(127, |i: int| 0u8));
        assert(r@.io =~= Seq::new(128, |i: int| 0u8));
        r
    }

    /// Installs a 256-byte boot image and maps it over 0x0000..0x00FF; an image of
    /// any other length is refused and the overlay stays as it was.
    pub fn load_boot_rom(&mut self, data: &[u8])
        requires
            old(self)@.wf(),
        ensures
            final(self)@.wf(),
            data@.len() == BOOT_ROM_SIZE ==> final(self)@ == (MemoryView {
                boot_rom: data@,
                boot_rom_enabled: true,
                ..old(self)@
            }),
            data@.len() != BOOT_ROM_SIZE ==> final(self)@ == old(self)@,
    {
        if data.len() != BOOT_ROM_SIZE {
            return;
        }
        let mut i: usize = 0;
        while i < BOOT_ROM_SIZE
            invariant
                data@.len() == BOOT_ROM_SIZE,
                self@ == (MemoryView { boot_rom: self@.boot_rom, ..old(self)@ }),
                self@.boot_rom.len() == BOOT_ROM_SIZE,
                0 <= i <= BOOT_ROM_SIZE,
                forall|k: int| 0 <= k < i ==> self@.boot_rom[k] == data@[k],
            decreases BOOT_ROM_SIZE - i,
        {
            self.boot_rom.set(i, data[i]);
            i = i + 1;
        }
        assert(self@.boot_rom =~= data@);
        self.boot_rom_enabled = true;
    }

    /// Maps a cartridge image at 0x0000..0x7FFF.
    pub fn load_rom(&mut self, data: Vec<u8>)
        requires
            old(self)@.wf(),
        ensures
            final(self)@ == (MemoryView { rom: data@, ..old(self)@ }),
    {
        self.rom = data;
    }

    /// Replaces the button snapshot that the joypad register reports.
    pub fn set_joypad(&mut self, input: Input)
        requires
            old(self)@.wf(),
        ensures
            final(self)@ == (MemoryView { joypad: input, ..old(self)@ }),
    {
        self.joypad = input;
    }

    fn rom_byte(&self, addr: u16) -> (r: u8)
        ensures
            r == self@.rom_byte(addr as int),
    {
        if (addr as usize) < self.rom.len() {
            self.rom[addr as usize]
        } else {
            0xFF
        }
    }

    /// The byte at `addr`, decoded by region.
    pub fn read(&self, addr: u16) -> (r: u8)
        requires
            self@.wf(),
        ensures
            r == self@.read(addr),
    {
        if addr < 0x0100 {
            if self.boot_rom_enabled {
                self.boot_rom[addr as usize]
            } else {
                self.rom_byte(addr)
            }
        } else if addr < 0x8000 {
            self.rom_byte(addr)
        } else if addr < 0xA000 {
            self.vram[(addr - 0x8000) as usize]
        } else if addr < 0xC000 {
            0xFF
        } else if addr < 0xE000 {
            self.wram[(addr - 0xC000) as usize]
        } else if addr < 0xFE00 {
            self.wram[(addr - 0xE000) as usize]
        } else if addr < 0xFEA0 {
            self.oam[(addr - 0xFE00) as usize]
        } else if addr < 0xFF00 {
            0xFF
        } else if addr < 0xFF80 {
            let i = (addr - 0xFF00) as usize;
            if i == 0 {
                self.joypad.get_joypad_state(self.io[0])
            } else if i == 4 {
                (self.div_counter / 256) as u8
            } else {
                self.io[i]
            }
        } else if addr < 0xFFFF {
            self.hram[(addr - 0xFF80) as usize]
        } else {
            self.ie_register
        }
    }

    /// OAM DMA: copies 160 bytes from `page << 8` into OAM.
    fn dma_transfer(&mut self, page: u8)
        requires
            old(self)@.wf(),
        ensures
            final(self)@ == (MemoryView { oam: old(self)@.dma_oam(page), ..old(self)@ }),
    {
        let base: u16 = page as u16 * 256;
        let mut i: usize = 0;
        while i < OAM_SIZE
            invariant
                base == page as int * 256,
                0 <= i <= OAM_SIZE,
                old(self)@.wf(),
                self@ == (MemoryView { oam: self@.oam, ..old(self)@ }),
                self@.oam.len() == OAM_SIZE,
                forall|k: int| 0 <= k < i ==> self@.oam[k] == old(self)@.dma_oam(page)[k],
                forall|k: int| i <= k < OAM_SIZE ==> self@.oam[k] == old(self)@.oam[k],
            decreases OAM_SIZE - i,
        {
            let src: u16 = base + i as u16;
            proof {
                if !(0xFE00 <= src < 0xFEA0) {
                    lemma_read_outside_oam(old(self)@, self@, src);
                }
            }
            let b = self.read(src);
            self.oam.set(i, b);
            i = i + 1;
        }
        assert(self@.oam =~= old(self)@.dma_oam(page));
    }

    fn write_io(&mut self, i: usize, value: u8)
        requires
            old(self)@.wf(),
            i < IO_SIZE,
        ensures
            final(self)@ == old(self)@.write_io(i as int, value),
            final(self)@.wf(),
    {
        if i == 4 {
            // Any write to DIV clears the whole divider.
            self.div_counter = 0;
            return;
        }
        self.io.set(i, value);
        if i == 0x46 {
            self.dma_transfer(value);
        } else if i == 0x50 && value != 0 {
            self.boot_rom_enabled = false;
        }
    }

    /// Stores `value` at `addr` with the side effects of the I/O registers.
    pub fn write(&mut self, addr: u16, value: u8)
        requires
            old(self)@.wf(),
        ensures
            final(self)@ == old(self)@.write(addr, value),
            final(self)@.wf(),
    {
        if addr < 0x8000 {
            // Cartridge ROM is read-only without a bank controller.
        } else if addr < 0xA000 {
            self.vram.set((addr - 0x8000) as usize, value);
        } else if addr < 0xC000 {
            // No external RAM.
        } else if addr < 0xE000 {
            self.wram.set((addr - 0xC000) as usize, value);
        } else if addr < 0xFE00 {
            self.wram.set((addr - 0xE000) as usize, value);
        } else if addr < 0xFEA0 {
            self.oam.set((addr - 0xFE00) as usize, value);
        } else if addr < 0xFF00 {
            // Prohibited area.
        } else if addr < 0xFF80 {
            self.write_io((addr - 0xFF00) as usize, value);
        } else if addr < 0xFFFF {
            self.hram.set((addr - 0xFF80) as usize, value);
        } else {
            self.ie_register = value;
        }
    }

    /// Little-endian word at `addr`; the high byte comes from `addr + 1` with wrap.
    pub fn read_word(&self, addr: u16) -> (r: u16)
        requires
            self@.wf(),
        ensures
            r == self@.read_word(addr),
    {
        let low = self.read(addr) as u16;
        let high = self.read(addr.wrapping_add(1)) as u16;
        high * 256 + low
    }

    /// Writes the low byte at `addr`, then the high byte at `addr + 1` with wrap.
    pub fn write_word(&mut self, addr: u16, value: u16)
        requires
            old(self)@.wf(),
        ensures
            final(self)@ == old(self)@.write_word(addr, value),
            final(self)@.wf(),
    {
        self.write(addr, (value % 256) as u8);
        self.write(addr.wrapping_add(1), (value / 256) as u8);
    }

    fn timer_increment(&mut self)
        requires
            old(self)@.wf(),
        ensures
            final(self)@ == old(self)@.timer_increment(),
            final(self)@.wf(),
    {
        let tima = self.io[5];
        if tima == 0xFF {
            let tma = self.io[6];
            self.io.set(5, tma);
            let if_reg = self.io[0x0F];
            self.io.set(0x0F, if_reg | 0x04);
        } else {
            self.io.set(5, tima + 1);
        }
    }

    /// Advances DIV and, when TAC enables it, TIMA by `cycles` T-cycles.
    pub fn update_timers(&mut self, cycles: u8)
        requires
            old(self)@.wf(),
        ensures
            final(self)@ == old(self)@.ticked(cycles),
            final(self)@.wf(),
    {
        self.div_counter = self.div_counter.wrapping_add(cycles as u16);
        let tac = self.io[7];
        if tac & 0x04 == 0 {
            return;
        }
        let threshold: u16 = match tac % 4 {
            0 => 1024,
            1 => 16,
            2 => 64,
            _ => 256,
        };
        let total: u16 = self.timer_counter + cycles as u16;
        let n: u16 = total / threshold;
        self.timer_counter = total % threshold;
        let ghost start = self@;
        let mut k: u16 = 0;
        while k < n
            invariant
                0 <= k <= n,
                start.wf(),
                self@ == start.timer_increments(k as nat),
                self@.wf(),
            decreases n - k,
        {
            self.timer_increment();
            k = k + 1;
        }
    }
}

} // verus!
