use vstd::prelude::*;
use crate::error::EnrError;
use crate::record::{enr_text_error, is_decode_error, parse, record_reads, sealed_text_of, Record, Sealed};
use crate::report::{report_lines, report_of, texts};

verus! {

/// Reads a transport string and reports on it.
#[derive(Clone, Debug, PartialEq, Eq)]
pub struct Read {
    /// The base64 record, with or without the `enr:` prefix.
    pub enr: String,
}

/// Parses the record of `r` and gives the report lines on it.
pub fn run(r: &Read) -> (res: Result<Vec<String>, EnrError>)
    ensures
        res is Ok <==> enr_text_error(r.enr@) is None,
        res is Err ==> enr_text_error(r.enr@) == Some(res->Err_0) && is_decode_error(res->Err_0),
        res is Ok ==> exists|rec: Record, s: Sealed|
            #[trigger] record_reads(rec, s) && texts(res->Ok_0@) == report_of(rec),
        forall|s: Sealed|
            (#[trigger] sealed_text_of(s) == r.enr@ || sealed_text_of(s) == "enr:"@ + r.enr@) ==> res is Ok
                && exists|rec: Record| #[trigger] record_reads(rec, s) && texts(res->Ok_0@) == report_of(rec),
{
    match parse(r.enr.as_str()) {
        Ok(rec) => {
            let lines = report_lines(&rec);
            proof {
                let s = choose|s: Sealed| record_reads(rec, s);
                assert(record_reads(rec, s));
            }
            Ok(lines)
        },
        Err(e) => Err(e),
    }
}

} // verus!
