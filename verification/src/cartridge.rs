use vstd::prelude::*;

verus! {

/// Largest ROM that fits in memory above the interpreter area.
pub const MAX_ROM_SIZE: usize = 3584;

/// Smallest ROM accepted: one instruction.
pub const MIN_ROM_SIZE: usize = 2;

/// Why a ROM could not be loaded.
#[derive(Clone, Copy, Debug, PartialEq, Eq, Structural)]
pub enum LoadError {
    /// No file was selected.
    NoFileSelected,
    /// The file name does not end in `.ch8`.
    WrongExtension,
    /// The ROM holds this many bytes, outside 2 to 3584.
    WrongSize(usize),
}

/// The extension of ROM files.
pub open spec fn rom_extension() -> Seq<char> {
    seq!['c', 'h', '8']
}

/// A ROM image padded with zeros to the size of the program area.
pub struct Cartridge {
    pub buffer: [u8; 3584],
}

impl Cartridge {
    /// The checks made before a ROM file is read: a file was selected
    /// (`extension` is `Some`) and its extension is `ch8`. The inner `None`
    /// stands for a file without an extension (or one that is not UTF-8).
    pub fn check_path(extension: Option<Option<&str>>) -> (checked: Result<(), LoadError>)
        ensures
            extension is None ==> checked == Err::<(), LoadError>(LoadError::NoFileSelected),
            extension matches Some(ext) ==> (checked is Ok <==> (ext matches Some(e) && e@
                == rom_extension())),
            extension matches Some(ext) ==> (checked is Ok <==> (ext matches Some(e) && e@
                == seq!['c', 'h', '8'])),
            extension matches Some(ext) && checked is Err ==> checked == Err::<(), LoadError>(
                LoadError::WrongExtension,
            ),
    {
        match extension {
            None => Err(LoadError::NoFileSelected),
            Some(Some(ext)) => {
                if Self::is_rom_extension(ext) {
                    Ok(())
                } else {
                    Err(LoadError::WrongExtension)
                }
            },
            Some(None) => Err(LoadError::WrongExtension),
        }
    }

    /// Whether `ext` is `ch8`.
    fn is_rom_extension(ext: &str) -> (matches: bool)
        ensures
            matches == (ext@ == rom_extension()),
    {
        let len = ext.unicode_len();
        if len != 3 {
            return false;
        }
        let matches = ext.get_char(0) == 'c' && ext.get_char(1) == 'h' && ext.get_char(2) == '8';
        if matches {
            assert(ext@ =~= rom_extension());
        }
        matches
    }

    /// The check made after a ROM file is read: it holds 2 to 3584 bytes.
    /// Then the cartridge holds the ROM padded with zeros.
    pub fn from_rom(rom: &Vec<u8>) -> (cartridge: Result<Self, LoadError>)
        ensures
            cartridge is Ok <==> MIN_ROM_SIZE <= rom.len() <= MAX_ROM_SIZE,
            cartridge matches Err(e) ==> e == LoadError::WrongSize(rom.len()),
            cartridge matches Ok(c) ==> (forall|i: int| 0 <= i < rom.len() ==> c.buffer[i] == rom[i])
                && (forall|i: int| rom.len() <= i < 3584 ==> c.buffer[i] == 0u8),
    {
        if rom.len() > MAX_ROM_SIZE || rom.len() < MIN_ROM_SIZE {
            return Err(LoadError::WrongSize(rom.len()));
        }
        Ok(Self { buffer: Self::to_stack(rom) })
    }

    /// Copies the ROM into a fixed-size buffer and pads it with zeros.
    pub fn to_stack(heap_buffer: &Vec<u8>) -> (stack_buffer: [u8; 3584])
        requires
            heap_buffer.len() <= MAX_ROM_SIZE,
        ensures
            forall|i: int| 0 <= i < heap_buffer.len() ==> stack_buffer[i] == heap_buffer[i],
            forall|i: int| heap_buffer.len() <= i < 3584 ==> stack_buffer[i] == 0u8,
    {
        let mut stack_buffer = [0u8; 3584];
        let len = heap_buffer.len();
        let mut i: usize = 0;
        while i < len
            invariant
                len == heap_buffer.len(),
                len <= 3584,
                i <= len,
                forall|j: int| 0 <= j < i ==> stack_buffer[j] == heap_buffer[j],
                forall|j: int| i <= j < 3584 ==> stack_buffer[j] == 0u8,
            decreases len - i,
        {
            stack_buffer[i] = heap_buffer[i];
            i = i + 1;
        }
        stack_buffer
    }
}

} // verus!
