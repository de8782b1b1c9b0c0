use pdr::format::de::{from_pdr, Deserializer, Variant};
use pdr::format::error::Error;
use pdr::patch::{
    CBNPCategory, CBNPCategorySet, CBNPFile, CBNPFileSet, CBNPFileVersion,
    CProductDescriptionForClient,
};
use pdr::pd::{PersistentDataRecord, Tokens};

struct Builder {
    rec: PersistentDataRecord,
}

impl Builder {
    fn new() -> Self {
        Builder {
            rec: PersistentDataRecord { tokens: vec![], args: vec![], strings: vec![] },
        }
    }
    fn begin(&mut self, n: &str) {
        self.rec.tokens.push(Tokens::BEGIN_TOKEN(n.to_string()));
    }
    fn end(&mut self, n: &str) {
        self.rec.tokens.push(Tokens::END_TOKEN(n.to_string()));
    }
    fn uint(&mut self, n: &str, v: u32) {
        self.rec.tokens.push(Tokens::UINT_TOKEN(n.to_string()));
        self.rec.args.push(v);
    }
    fn sint(&mut self, n: &str, v: u32) {
        self.rec.tokens.push(Tokens::SINT_TOKEN(n.to_string()));
        self.rec.args.push(v);
    }
    fn string(&mut self, n: &str, v: &str) {
        self.rec.tokens.push(Tokens::STRING_TOKEN(n.to_string()));
        self.rec.args.push(self.rec.strings.len() as u32);
        self.rec.strings.push(v.to_string());
    }
    fn version(&mut self, number: u32, hashes: &[u32]) {
        self.begin("_Versions");
        self.uint("_VersionNumber", number);
        self.uint("_FileSize", 100 + number);
        self.uint("_7ZFileSize", 50 + number);
        self.uint("_FileTime", 1_600_000_000);
        self.uint("_PatchSize", 10);
        for h in hashes {
            self.uint("_HashKey", *h);
        }
        self.end("_Versions");
    }
}

fn version(number: u32, hashes: &[u32]) -> CBNPFileVersion {
    CBNPFileVersion {
        _VersionNumber: number,
        _FileSize: 100 + number,
        _7ZFileSize: 50 + number,
        _FileTime: 1_600_000_000,
        _PatchSize: 10,
        _HashKey: hashes.to_vec(),
    }
}

fn sample() -> Builder {
    let mut b = Builder::new();
    b.begin("_Files");
    b.begin("_Files");
    b.string("_FileName", "main.bnp");
    b.version(1, &[0xaaaa, 0xbbbb]);
    b.version(2, &[]);
    b.end("_Files");
    b.begin("_Files");
    b.string("_FileName", "extra.bnp");
    b.end("_Files");
    b.end("_Files");
    b.begin("_Categories");
    b.begin("_Category");
    b.string("_Name", "core");
    b.sint("_IsOptional", 0);
    b.string("_UnpackTo", "./data");
    b.sint("_Hidden", 1);
    b.string("_Files", "main.bnp");
    b.string("_Files", "extra.bnp");
    b.end("_Category");
    b.begin("_Category");
    b.string("_Name", "empty");
    b.end("_Category");
    b.end("_Categories");
    b
}

#[test]
fn product_description_decodes() {
    let b = sample();
    let mut de = Deserializer::from_pdr(&b.rec);
    let p = CProductDescriptionForClient::from(&mut de).unwrap();
    let expected = CProductDescriptionForClient {
        _Files: CBNPFileSet {
            _Files: vec![
                CBNPFile {
                    _FileName: "main.bnp".to_string(),
                    _Versions: vec![version(1, &[0xaaaa, 0xbbbb]), version(2, &[])],
                },
                CBNPFile { _FileName: "extra.bnp".to_string(), _Versions: vec![] },
            ],
        },
        _Categories: CBNPCategorySet {
            _Category: vec![
                CBNPCategory {
                    _Name: "core".to_string(),
                    _IsOptional: Some(false),
                    _UnpackTo: Some("./data".to_string()),
                    _IsIncremental: None,
                    _CatRequired: None,
                    _Hidden: Some(true),
                    _Files: vec!["main.bnp".to_string(), "extra.bnp".to_string()],
                },
                CBNPCategory {
                    _Name: "empty".to_string(),
                    _IsOptional: None,
                    _UnpackTo: None,
                    _IsIncremental: None,
                    _CatRequired: None,
                    _Hidden: None,
                    _Files: vec![],
                },
            ],
        },
    };
    assert_eq!(p, expected);
    assert_eq!(de.position(), (b.rec.tokens.len(), b.rec.args.len()));
}

#[test]
fn struct_read_in_isolation() {
    let mut b = Builder::new();
    b.version(7, &[1, 2, 3]);
    let mut de = Deserializer::from_pdr(&b.rec);
    let v: CBNPFileVersion = de.read_struct("_Versions").unwrap();
    assert_eq!(v, version(7, &[1, 2, 3]));
}

#[test]
fn repeated_struct_stops_at_other_name() {
    let mut b = Builder::new();
    b.version(1, &[]);
    b.version(2, &[]);
    b.uint("_Other", 0);
    let mut de = Deserializer::from_pdr(&b.rec);
    let vs: Vec<CBNPFileVersion> = de.read_repeated_struct("_Versions").unwrap();
    assert_eq!(vs, vec![version(1, &[]), version(2, &[])]);
    assert_eq!(de.peek_token().unwrap().value(), "_Other");
}

#[test]
fn missing_field_fails() {
    let mut b = Builder::new();
    b.begin("_Versions");
    b.uint("_VersionNumber", 1);
    b.uint("_7ZFileSize", 1);
    b.end("_Versions");
    let mut de = Deserializer::from_pdr(&b.rec);
    let r: Result<CBNPFileVersion, Error> = de.read_struct("_Versions");
    assert_eq!(r, Err(Error::ExpectedTokenWithName("_FileSize".to_string())));
}

#[test]
fn unclosed_struct_fails() {
    let mut b = Builder::new();
    b.begin("_Files");
    b.begin("_Files");
    b.string("_FileName", "a");
    b.end("_Files");
    let mut de = Deserializer::from_pdr(&b.rec);
    assert_eq!(CProductDescriptionForClient::from(&mut de), Err(Error::NoMoreTokens));
}

#[test]
fn wrong_top_level_fails() {
    let mut b = Builder::new();
    b.begin("_Categories");
    b.end("_Categories");
    let mut de = Deserializer::from_pdr(&b.rec);
    assert_eq!(
        CProductDescriptionForClient::from(&mut de),
        Err(Error::ExpectedBeginToken)
    );
}

#[test]
fn from_pdr_reads_top_level_fields() {
    let mut b = Builder::new();
    b.uint("_VersionNumber", 3);
    b.uint("_FileSize", 103);
    b.uint("_7ZFileSize", 53);
    b.uint("_FileTime", 1_600_000_000);
    b.uint("_PatchSize", 10);
    b.uint("_HashKey", 9);
    let v: CBNPFileVersion = from_pdr(&b.rec).unwrap();
    assert_eq!(v, version(3, &[9]));
}

#[test]
fn from_pdr_reads_product_description() {
    let b = sample();
    let p: CProductDescriptionForClient = from_pdr(&b.rec).unwrap();
    assert_eq!(p._Files._Files.len(), 2);
    assert_eq!(p._Categories._Category[0]._Name, "core");
    let empty = Builder::new();
    let r: Result<CProductDescriptionForClient, Error> = from_pdr(&empty.rec);
    assert_eq!(r, Err(Error::NoMoreTokens));
}

fn payload_record(end_name: &str) -> Builder {
    let mut b = Builder::new();
    b.begin("Versioned");
    b.uint("_VersionNumber", 4);
    b.uint("_FileSize", 104);
    b.uint("_7ZFileSize", 54);
    b.uint("_FileTime", 1_600_000_000);
    b.uint("_PatchSize", 10);
    b.end(end_name);
    b
}

#[test]
fn enum_value_with_payload_closes_its_bracket() {
    let b = payload_record("Versioned");
    let mut de = Deserializer::from_pdr(&b.rec);
    let v: Variant<CBNPFileVersion> = de.read_enum_value().unwrap();
    assert_eq!(v, Variant::Fields("Versioned".to_string(), version(4, &[])));
    assert_eq!(de.position(), (7, 5));
}

#[test]
fn enum_value_with_other_closing_bracket_fails() {
    let b = payload_record("Other");
    let mut de = Deserializer::from_pdr(&b.rec);
    let r: Result<Variant<CBNPFileVersion>, Error> = de.read_enum_value();
    assert_eq!(r, Err(Error::ExpectedEndToken));
}

#[test]
fn enum_value_without_closing_bracket_fails() {
    let mut b = payload_record("Versioned");
    b.rec.tokens.pop();
    b.uint("_Extra", 1);
    let mut de = Deserializer::from_pdr(&b.rec);
    let r: Result<Variant<CBNPFileVersion>, Error> = de.read_enum_value();
    assert_eq!(r, Err(Error::ExpectedEndToken));
}

#[test]
fn enum_value_unit_and_other_shapes() {
    let mut b = Builder::new();
    b.string("kind", "Plain");
    b.uint("kind", 3);
    let mut de = Deserializer::from_pdr(&b.rec);
    let v: Variant<CBNPFileVersion> = de.read_enum_value().unwrap();
    assert_eq!(v, Variant::Unit("Plain".to_string()));
    assert_eq!(de.position(), (1, 1));
    let r: Result<Variant<CBNPFileVersion>, Error> = de.read_enum_value();
    assert_eq!(r, Err(Error::ExpectedEnum));
}
