//! Records of the input and the names of their output files.

use vstd::prelude::*;
use vstd::string::StringExecFns;
use crate::text::decimal;
use crate::text::push_digits;

verus! {

/// What `url::Url::parse` makes of a text: the serialization of the absolute
/// URL that it reads from it, or nothing where it reads none.
pub uninterp spec fn parsed_url(input: Seq<char>) -> Option<Seq<char>>;

/// Calls `url::Url::parse` on `input` and hands back the serialization of
/// the URL, or `None` where the parser refuses the text. Nothing is claimed
/// of which texts it accepts, only that the answer is the parser's.
#[verifier::external_body]
fn parse_url(input: &str) -> (serialized: Option<String>)
    ensures
        serialized.is_some() == parsed_url(input@).is_some(),
        serialized.is_some() ==> serialized.unwrap()@ == parsed_url(input@).unwrap(),
{
    url::Url::parse(input).ok().map(String::from)
}

/// One resource to download: a stable numeric id and where to get it.
#[derive(Clone, Debug)]
pub struct DownloadRecord {
    pub id: i32,
    pub url: String,
}

impl DownloadRecord {
    /// A record from its parts.
    pub fn new(id: i32, url: String) -> (record: DownloadRecord)
        ensures
            record.id == id,
            record.url == url,
    {
        DownloadRecord { id, url }
    }

    /// A record from an id and the text of a URL. The text must parse as an
    /// absolute URL; the record holds the URL as the parser writes it.
    pub fn parse(id: i32, url: &str) -> (record: Option<DownloadRecord>)
        ensures
            record.is_some() == parsed_url(url@).is_some(),
            record.is_some() ==> record.unwrap().id == id && record.unwrap().url@ == parsed_url(
                url@,
            ).unwrap(),
    {
        match parse_url(url) {
            Some(serialized) => Some(DownloadRecord::new(id, serialized)),
            None => None,
        }
    }

    /// Name of the file that this record is stored in.
    pub fn output_file_name(&self) -> (name: String)
        ensures
            name@ == file_name(self.id as int),
    {
        output_file_name(self.id)
    }
}

/// Name of the output file of the record with the given id.
pub open spec fn file_name(id: int) -> Seq<char> {
    decimal(id) + ".jpg"@
}

/// Name of the output file of the record with the given id: the id in
/// decimal, followed by `.jpg`.
pub fn output_file_name(id: i32) -> (name: String)
    ensures
        name@ == file_name(id as int),
{
    let mut name = String::new();
    if id < 0 {
        let magnitude: u64 = (-(id as i64)) as u64;
        name.append("-");
        proof {
            reveal_strlit("-");
            assert("-"@ =~= seq!['-']);
        }
        push_digits(magnitude, &mut name);
        assert(name@ =~= decimal(id as int));
    } else {
        push_digits(id as u64, &mut name);
        assert(name@ =~= decimal(id as int));
    }
    name.append(".jpg");
    name
}

} // verus!
