use vstd::prelude::*;

use crate::text::join2;

verus! {

pub const GATEWAY_FRAME: &'static str = "frame";
pub const GATEWAY_FRAME_PRODUCTION: &'static str = "frameProduction";
pub const GATEWAY_FRAME_PRODUCTION_CHECKSUM: &'static str = "frameProductionChecksum";

pub const PARAM_ROUTE: &'static str = "route";
pub const PARAM_PARAMETERS: &'static str = "parameters";

pub const FRAME_NOT_CACHED: &'static str = "NB0101";
pub const FRAME_PRODUCTION_SYNC: &'static str = "NB0102";
pub const FRAME_SYNC: &'static str = "NB0103";
pub const FRAME_COMMUNITY_SYNC: &'static str = "NB0104";
pub const FRAME_CHECKSUM: &'static str = "NB0105";

pub const CONNECTION_REQUIRED: &'static str = "Please make sure internet connection is available";

/// The cache key of a route's development frame.
pub open spec fn spec_dev_key(route: Seq<char>) -> Seq<char> {
    "FRAME_DEV::"@ + route
}

/// The cache key of a route's production frame.
pub open spec fn spec_prod_key(route: Seq<char>) -> Seq<char> {
    "FRAME_PROD::"@ + route
}

pub fn dev_key(route: &str) -> (r: String)
    ensures
        r@ == spec_dev_key(route@),
{
    join2("FRAME_DEV::", route)
}

pub fn prod_key(route: &str) -> (r: String)
    ensures
        r@ == spec_prod_key(route@),
{
    join2("FRAME_PROD::", route)
}

/// A development key and a production key never collide, and each kind of
/// key tells its route apart from every other route.
pub proof fn lemma_frame_keys_distinct(a: Seq<char>, b: Seq<char>)
    ensures
        spec_dev_key(a) != spec_prod_key(b),
        spec_dev_key(a) == spec_dev_key(b) ==> a == b,
        spec_prod_key(a) == spec_prod_key(b) ==> a == b,
{
    reveal_strlit("FRAME_DEV::");
    reveal_strlit("FRAME_PROD::");
    assert(spec_dev_key(a)[6] == 'D');
    assert(spec_prod_key(b)[6] == 'P');
    if spec_dev_key(a) == spec_dev_key(b) {
        assert(a =~= spec_dev_key(a).subrange(11, spec_dev_key(a).len() as int));
        assert(b =~= spec_dev_key(b).subrange(11, spec_dev_key(b).len() as int));
    }
    if spec_prod_key(a) == spec_prod_key(b) {
        assert(a =~= spec_prod_key(a).subrange(12, spec_prod_key(a).len() as int));
        assert(b =~= spec_prod_key(b).subrange(12, spec_prod_key(b).len() as int));
    }
}

} // verus!
