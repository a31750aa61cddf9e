//! Memory layout information that a device reports through its properties.
use vstd::prelude::*;

pub mod ext_mem_prop_tags;
pub mod mem_id;

verus! {

/// Address ranges that the bootloader keeps for itself.
#[derive(Clone, Debug)]
pub struct ReservedRegions {
    /// The ranges, each as first and last address.
    pub regions: Vec<(u32, u32)>,
}

impl View for ReservedRegions {
    type V = Seq<(u32, u32)>;

    open spec fn view(&self) -> Seq<(u32, u32)> {
        self.regions@
    }
}

impl ReservedRegions {
    /// The ranges that a word list spells out: word `2i` starts range `i` and
    /// word `2i + 1` ends it.
    pub open spec fn pairs(data: Seq<u32>) -> Seq<(u32, u32)> {
        Seq::new((data.len() / 2) as nat, |i: int| (data[2 * i], data[2 * i + 1]))
    }

    /// The reply that spells the ranges out: two words that do not count, then
    /// first and last address of each range.
    pub open spec fn spec_words(regions: Seq<(u32, u32)>) -> Seq<u32> {
        seq![0u32, 0u32] + Seq::new(
            2 * regions.len(),
            |i: int|
                if i % 2 == 0 {
                    regions[i / 2].0
                } else {
                    regions[i / 2].1
                },
        )
    }

    /// Reads the ranges from a word list of even length.
    pub fn parse(data: &[u32]) -> (r: ReservedRegions)
        requires
            data@.len() % 2 == 0,
        ensures
            r@ == Self::pairs(data@),
    {
        let mut regions: Vec<(u32, u32)> = Vec::new();
        let mut i: usize = 0;
        while i < data.len()
            invariant
                data@.len() % 2 == 0,
                i % 2 == 0,
                i <= data@.len(),
                regions@.len() == i / 2,
                forall|k: int| 0 <= k < regions@.len() ==> regions@[k] == (data@[2 * k], data@[2 * k + 1]),
            decreases data@.len() - i,
        {
            regions.push((data[i], data[i + 1]));
            i += 2;
        }
        assert(regions@ =~= Self::pairs(data@));
        ReservedRegions { regions }
    }
}

/// What a device reports of one external memory. An attribute is `None` where
/// the device left it out.
#[derive(Clone, Copy, Debug, PartialEq, Eq, Structural)]
pub struct ExternalMemoryAttributes {
    /// Address at which the memory starts.
    pub start_address: Option<u32>,
    /// Size of the memory, in KiB.
    pub total_size: Option<u32>,
    /// Size of a page.
    pub page_size: Option<u32>,
    /// Size of a sector.
    pub sector_size: Option<u32>,
    /// Size of a block.
    pub block_size: Option<u32>,
}

impl ExternalMemoryAttributes {
    /// Word `index` of the reply if `flag` is set in its first word.
    pub open spec fn attribute(data: Seq<u32>, flag: u32, index: int) -> Option<u32> {
        if data[0] & flag != 0 {
            Some(data[index])
        } else {
            None
        }
    }

    /// Whether the reply holds its flag word and every word that the flags
    /// announce.
    pub open spec fn well_formed(data: Seq<u32>) -> bool {
        &&& data.len() >= 1
        &&& data[0] & ext_mem_prop_tags::START_ADDRESS != 0 ==> data.len() > 1
        &&& data[0] & ext_mem_prop_tags::SIZE_IN_KBYTES != 0 ==> data.len() > 2
        &&& data[0] & ext_mem_prop_tags::PAGE_SIZE != 0 ==> data.len() > 3
        &&& data[0] & ext_mem_prop_tags::SECTOR_SIZE != 0 ==> data.len() > 4
        &&& data[0] & ext_mem_prop_tags::BLOCK_SIZE != 0 ==> data.len() > 5
    }

    /// The attributes that a well-formed reply spells out.
    pub open spec fn spec_parse(data: Seq<u32>) -> ExternalMemoryAttributes {
        ExternalMemoryAttributes {
            start_address: Self::attribute(data, ext_mem_prop_tags::START_ADDRESS, 1),
            total_size: Self::attribute(data, ext_mem_prop_tags::SIZE_IN_KBYTES, 2),
            page_size: Self::attribute(data, ext_mem_prop_tags::PAGE_SIZE, 3),
            sector_size: Self::attribute(data, ext_mem_prop_tags::SECTOR_SIZE, 4),
            block_size: Self::attribute(data, ext_mem_prop_tags::BLOCK_SIZE, 5),
        }
    }

    /// The flag of an attribute that is present, zero for one that is not.
    pub open spec fn flag_of(attribute: Option<u32>, flag: u32) -> u32 {
        if attribute is Some {
            flag
        } else {
            0
        }
    }

    /// The value of an attribute that is present, zero for one that is not.
    pub open spec fn word_of(attribute: Option<u32>) -> u32 {
        match attribute {
            Some(value) => value,
            None => 0,
        }
    }

    /// The reply that spells these attributes out: the flags of the attributes
    /// that are present, then the five attributes at their places, with a zero
    /// for one that is not present.
    pub open spec fn spec_words(self) -> Seq<u32> {
        seq![
            (Self::flag_of(self.start_address, ext_mem_prop_tags::START_ADDRESS) + Self::flag_of(
                self.total_size,
                ext_mem_prop_tags::SIZE_IN_KBYTES,
            ) + Self::flag_of(self.page_size, ext_mem_prop_tags::PAGE_SIZE) + Self::flag_of(
                self.sector_size,
                ext_mem_prop_tags::SECTOR_SIZE,
            ) + Self::flag_of(self.block_size, ext_mem_prop_tags::BLOCK_SIZE)) as u32,
            Self::word_of(self.start_address),
            Self::word_of(self.total_size),
            Self::word_of(self.page_size),
            Self::word_of(self.sector_size),
            Self::word_of(self.block_size),
        ]
    }

    /// Tells whether [`ExternalMemoryAttributes::parse`] accepts the reply.
    pub fn is_well_formed(data: &[u32]) -> (b: bool)
        ensures
            b == Self::well_formed(data@),
    {
        if data.len() < 1 {
            return false;
        }
        let value = data[0];
        (value & ext_mem_prop_tags::START_ADDRESS == 0 || data.len() > 1) && (value
            & ext_mem_prop_tags::SIZE_IN_KBYTES == 0 || data.len() > 2) && (value
            & ext_mem_prop_tags::PAGE_SIZE == 0 || data.len() > 3) && (value
            & ext_mem_prop_tags::SECTOR_SIZE == 0 || data.len() > 4) && (value
            & ext_mem_prop_tags::BLOCK_SIZE == 0 || data.len() > 5)
    }

    /// Reads the attributes from a reply: the first word holds the flags, the
    /// words after it the attributes, each at its fixed place.
    pub fn parse(data: &[u32]) -> (r: ExternalMemoryAttributes)
        requires
            Self::well_formed(data@),
        ensures
            r == Self::spec_parse(data@),
    {
        let value = data[0];
        let start_address = if value & ext_mem_prop_tags::START_ADDRESS != 0 {
            Some(data[1])
        } else {
            None
        };
        let total_size = if value & ext_mem_prop_tags::SIZE_IN_KBYTES != 0 {
            Some(data[2])
        } else {
            None
        };
        let page_size = if value & ext_mem_prop_tags::PAGE_SIZE != 0 {
            Some(data[3])
        } else {
            None
        };
        let sector_size = if value & ext_mem_prop_tags::SECTOR_SIZE != 0 {
            Some(data[4])
        } else {
            None
        };
        let block_size = if value & ext_mem_prop_tags::BLOCK_SIZE != 0 {
            Some(data[5])
        } else {
            None
        };
        ExternalMemoryAttributes { start_address, total_size, page_size, sector_size, block_size }
    }
}

/// The flags of a reply tell which attributes are present: a reply that
/// spells attributes out is well formed and is read back as those attributes.
pub proof fn lemma_external_memory_roundtrip(attributes: ExternalMemoryAttributes)
    ensures
        ExternalMemoryAttributes::well_formed(attributes.spec_words()),
        ExternalMemoryAttributes::spec_parse(attributes.spec_words()) == attributes,
{
    let x0 = ExternalMemoryAttributes::flag_of(
        attributes.start_address,
        ext_mem_prop_tags::START_ADDRESS,
    );
    let x1 = ExternalMemoryAttributes::flag_of(
        attributes.total_size,
        ext_mem_prop_tags::SIZE_IN_KBYTES,
    );
    let x2 = ExternalMemoryAttributes::flag_of(attributes.page_size, ext_mem_prop_tags::PAGE_SIZE);
    let x3 = ExternalMemoryAttributes::flag_of(
        attributes.sector_size,
        ext_mem_prop_tags::SECTOR_SIZE,
    );
    let x4 = ExternalMemoryAttributes::flag_of(
        attributes.block_size,
        ext_mem_prop_tags::BLOCK_SIZE,
    );
    let flags = (x0 + x1 + x2 + x3 + x4) as u32;
    assert((flags & 1 != 0 <==> x0 != 0) && (flags & 2 != 0 <==> x1 != 0) && (flags & 4 != 0 <==> x2
        != 0) && (flags & 8 != 0 <==> x3 != 0) && (flags & 16 != 0 <==> x4 != 0)) by (bit_vector)
        requires
            x0 == 0 || x0 == 1,
            x1 == 0 || x1 == 2,
            x2 == 0 || x2 == 4,
            x3 == 0 || x3 == 8,
            x4 == 0 || x4 == 16,
            flags == x0 + x1 + x2 + x3 + x4,
    ;
}

/// Reserved regions are read back from the words that spell them out: two
/// words in front, then first and last address of each region.
pub proof fn lemma_reserved_regions_roundtrip(regions: Seq<(u32, u32)>)
    ensures
        ReservedRegions::pairs(ReservedRegions::spec_words(regions).skip(2)) == regions,
        ReservedRegions::spec_words(regions).len() == 2 + 2 * regions.len(),
{
    let words = ReservedRegions::spec_words(regions).skip(2);
    assert(ReservedRegions::pairs(words) =~= regions);
}

} // verus!
