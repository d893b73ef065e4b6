//! Compression kinds, parsed once from their names.
use vstd::prelude::*;

verus! {

/// The archive containers and stream formats the codec layer can write.
#[derive(Clone, Copy, Debug, PartialEq, Eq, Structural)]
pub enum CompressionType {
    Zip,
    TarGz,
    TarBr,
    Gz,
    Br,
    Gzip,
    Bzip2,
}

/// Every kind, in the order the user interface lists them.
pub open spec fn all_kinds() -> Seq<CompressionType> {
    seq![
        CompressionType::Zip,
        CompressionType::TarGz,
        CompressionType::TarBr,
        CompressionType::Gz,
        CompressionType::Br,
        CompressionType::Gzip,
        CompressionType::Bzip2,
    ]
}

impl CompressionType {
    /// The name under which the kind is requested and listed.
    pub open spec fn spec_name(self) -> Seq<char> {
        match self {
            CompressionType::Zip => seq!['Z', 'i', 'p'],
            CompressionType::TarGz => seq!['T', 'a', 'r', 'G', 'z'],
            CompressionType::TarBr => seq!['T', 'a', 'r', 'B', 'r'],
            CompressionType::Gz => seq!['G', 'z'],
            CompressionType::Br => seq!['B', 'r'],
            CompressionType::Gzip => seq!['G', 'z', 'i', 'p'],
            CompressionType::Bzip2 => seq!['B', 'z', 'i', 'p', '2'],
        }
    }

    /// Containers hold many files; bare streams compress a single one.
    pub open spec fn spec_supports_multiple_files(self) -> bool {
        match self {
            CompressionType::Zip | CompressionType::TarGz | CompressionType::TarBr => true,
            _ => false,
        }
    }

    #[verifier::when_used_as_spec(spec_supports_multiple_files)]
    pub fn supports_multiple_files(self) -> (r: bool)
        ensures
            r == self.spec_supports_multiple_files(),
    {
        match self {
            CompressionType::Zip | CompressionType::TarGz | CompressionType::TarBr => true,
            _ => false,
        }
    }

    pub fn name(&self) -> (r: String)
        ensures
            r@ == self.spec_name(),
    {
        let s: &str = match self {
            CompressionType::Zip => "Zip",
            CompressionType::TarGz => "TarGz",
            CompressionType::TarBr => "TarBr",
            CompressionType::Gz => "Gz",
            CompressionType::Br => "Br",
            CompressionType::Gzip => "Gzip",
            CompressionType::Bzip2 => "Bzip2",
        };
        proof {
            reveal_strlit("Zip");
            reveal_strlit("TarGz");
            reveal_strlit("TarBr");
            reveal_strlit("Gz");
            reveal_strlit("Br");
            reveal_strlit("Gzip");
            reveal_strlit("Bzip2");
        }
        String::from_str(s)
    }
}

/// The kind a name denotes, if any. Names are matched exactly.
pub open spec fn kind_of(s: Seq<char>) -> Option<CompressionType> {
    if s == CompressionType::Zip.spec_name() {
        Some(CompressionType::Zip)
    } else if s == CompressionType::TarGz.spec_name() {
        Some(CompressionType::TarGz)
    } else if s == CompressionType::TarBr.spec_name() {
        Some(CompressionType::TarBr)
    } else if s == CompressionType::Gz.spec_name() {
        Some(CompressionType::Gz)
    } else if s == CompressionType::Br.spec_name() {
        Some(CompressionType::Br)
    } else if s == CompressionType::Gzip.spec_name() {
        Some(CompressionType::Gzip)
    } else if s == CompressionType::Bzip2.spec_name() {
        Some(CompressionType::Bzip2)
    } else {
        None
    }
}

/// Parses a kind name; the one place where names map to kinds.
pub fn parse_compression_type(s: &str) -> (r: Option<CompressionType>)
    ensures
        r == kind_of(s@),
{
    let given = String::from_str(s);
    let mut i: usize = 0;
    while i < 7
        invariant
            0 <= i <= 7,
            given@ == s@,
            forall|j: int| 0 <= j < i ==> all_kinds()[j].spec_name() != s@,
        decreases 7 - i,
    {
        let k = kind_at(i);
        if k.name() == given {
            proof {
                lemma_names_distinct();
            }
            return Some(k);
        }
        i = i + 1;
    }
    proof {
        assert(all_kinds()[0].spec_name() != s@);
        assert(all_kinds()[1].spec_name() != s@);
        assert(all_kinds()[2].spec_name() != s@);
        assert(all_kinds()[3].spec_name() != s@);
        assert(all_kinds()[4].spec_name() != s@);
        assert(all_kinds()[5].spec_name() != s@);
        assert(all_kinds()[6].spec_name() != s@);
    }
    None
}

fn kind_at(i: usize) -> (k: CompressionType)
    requires
        i < 7,
    ensures
        k == all_kinds()[i as int],
{
    match i {
        0 => CompressionType::Zip,
        1 => CompressionType::TarGz,
        2 => CompressionType::TarBr,
        3 => CompressionType::Gz,
        4 => CompressionType::Br,
        5 => CompressionType::Gzip,
        _ => CompressionType::Bzip2,
    }
}

/// Distinct kinds have distinct names, so each name denotes one kind.
pub proof fn lemma_names_distinct()
    ensures
        forall|k: CompressionType| #[trigger] kind_of(k.spec_name()) == Some(k),
{
    assert forall|k: CompressionType| #[trigger] kind_of(k.spec_name()) == Some(k) by {
        let n = k.spec_name();
        assert(n.len() >= 2);
        match k {
            CompressionType::Zip => {},
            CompressionType::TarGz => {
                assert(n[0] != CompressionType::Zip.spec_name()[0]);
            },
            CompressionType::TarBr => {
                assert(n[0] != CompressionType::Zip.spec_name()[0]);
                assert(n[3] != CompressionType::TarGz.spec_name()[3]);
            },
            CompressionType::Gz => {
                assert(n.len() != CompressionType::Zip.spec_name().len());
                assert(n.len() != CompressionType::TarGz.spec_name().len());
                assert(n.len() != CompressionType::TarBr.spec_name().len());
            },
            CompressionType::Br => {
                assert(n.len() != CompressionType::Zip.spec_name().len());
                assert(n.len() != CompressionType::TarGz.spec_name().len());
                assert(n.len() != CompressionType::TarBr.spec_name().len());
                assert(n[0] != CompressionType::Gz.spec_name()[0]);
            },
            CompressionType::Gzip => {
                assert(n.len() != CompressionType::Zip.spec_name().len());
                assert(n[0] != CompressionType::TarGz.spec_name()[0]);
                assert(n[0] != CompressionType::TarBr.spec_name()[0]);
                assert(n.len() != CompressionType::Gz.spec_name().len());
                assert(n.len() != CompressionType::Br.spec_name().len());
            },
            CompressionType::Bzip2 => {
                assert(n.len() != CompressionType::Zip.spec_name().len());
                assert(n[0] != CompressionType::TarGz.spec_name()[0]);
                assert(n[0] != CompressionType::TarBr.spec_name()[0]);
                assert(n.len() != CompressionType::Gz.spec_name().len());
                assert(n.len() != CompressionType::Br.spec_name().len());
                assert(n.len() != CompressionType::Gzip.spec_name().len());
            },
        }
    }
}

/// The names of all kinds, in listing order.
pub fn get_compression_types() -> (r: Vec<String>)
    ensures
        r.len() == all_kinds().len(),
        forall|i: int| 0 <= i < r.len() ==> #[trigger] r[i]@ == all_kinds()[i].spec_name(),
{
    let mut r: Vec<String> = Vec::new();
    let mut i: usize = 0;
    while i < 7
        invariant
            0 <= i <= 7,
            r.len() == i,
            forall|j: int| 0 <= j < i ==> #[trigger] r[j]@ == all_kinds()[j].spec_name(),
        decreases 7 - i,
    {
        r.push(kind_at(i).name());
        i = i + 1;
    }
    r
}

} // verus!
