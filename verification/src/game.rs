//! Deployment-region lookup from the host package identifier.

use vstd::prelude::*;
use crate::text::str_eq;

verus! {

/// The deployment region a package identifier belongs to.
#[derive(Clone, Copy, Debug, PartialEq, Eq, Structural)]
pub enum Region {
    /// The package identifier is not a known deployment.
    Unknown,
    /// The Japanese deployment.
    Japan,
    /// The Taiwanese deployments.
    Taiwan,
    /// The Korean deployment.
    Korea,
    /// The Chinese deployment.
    China,
    /// The global deployment.
    Global,
}

/// The region a package identifier maps to.
pub open spec fn region_of(name: Seq<char>) -> Region {
    if name == "jp.co.cygames.umamusume"@ {
        Region::Japan
    } else if name == "com.komoe.kmumamusumegp"@ || name == "com.komoe.umamusumeofficial"@ {
        Region::Taiwan
    } else if name == "com.kakaogames.umamusume"@ {
        Region::Korea
    } else if name == "com.bilibili.umamusu"@ {
        Region::China
    } else if name == "com.cygames.umamusume"@ {
        Region::Global
    } else {
        Region::Unknown
    }
}

/// Maps the host package identifier to its deployment region.
pub fn get_region(package_name: &str) -> (r: Region)
    ensures
        r == region_of(package_name@),
{
    if str_eq(package_name, "jp.co.cygames.umamusume") {
        Region::Japan
    } else if str_eq(package_name, "com.komoe.kmumamusumegp") || str_eq(
        package_name,
        "com.komoe.umamusumeofficial",
    ) {
        Region::Taiwan
    } else if str_eq(package_name, "com.kakaogames.umamusume") {
        Region::Korea
    } else if str_eq(package_name, "com.bilibili.umamusu") {
        Region::China
    } else if str_eq(package_name, "com.cygames.umamusume") {
        Region::Global
    } else {
        Region::Unknown
    }
}

} // verus!
