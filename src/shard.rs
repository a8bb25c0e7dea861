use vstd::prelude::*;
use crate::types::Shard;

verus! {

/// Whether a coordinate lies strictly inside the box
/// (lat_lo, lat_hi) x (lon_lo, lon_hi), all in millionths of a degree.
pub open spec fn in_box(lat: int, lon: int, lat_lo: int, lat_hi: int, lon_lo: int, lon_hi: int) -> bool {
    lat_lo < lat < lat_hi && lon_lo < lon < lon_hi
}

pub open spec fn in_north_america(lat: int, lon: int) -> bool {
    in_box(lat, lon, 15_000_000, 75_000_000, -170_000_000, -50_000_000)
}

pub open spec fn in_europe(lat: int, lon: int) -> bool {
    in_box(lat, lon, 35_000_000, 75_000_000, -15_000_000, 40_000_000)
}

pub open spec fn in_asia(lat: int, lon: int) -> bool {
    in_box(lat, lon, -10_000_000, 55_000_000, 40_000_000, 150_000_000)
}

pub open spec fn in_south_america(lat: int, lon: int) -> bool {
    in_box(lat, lon, -60_000_000, 15_000_000, -85_000_000, -30_000_000)
}

pub open spec fn in_africa(lat: int, lon: int) -> bool {
    in_box(lat, lon, -40_000_000, 40_000_000, -20_000_000, 55_000_000)
}

pub open spec fn in_oceania(lat: int, lon: int) -> bool {
    in_box(lat, lon, -50_000_000, -10_000_000, 110_000_000, 180_000_000)
}

pub open spec fn in_antarctica(lat: int) -> bool {
    lat < -60_000_000
}

/// The shard of a coordinate: the first box that holds it, in the order
/// North America, Europe, Asia, South America, Africa, Oceania; then
/// Antarctica below 60 degrees south; North America otherwise.
pub open spec fn shard_of(lat: int, lon: int) -> Shard {
    if in_north_america(lat, lon) {
        Shard::NorthAmerica
    } else if in_europe(lat, lon) {
        Shard::Europe
    } else if in_asia(lat, lon) {
        Shard::Asia
    } else if in_south_america(lat, lon) {
        Shard::SouthAmerica
    } else if in_africa(lat, lon) {
        Shard::Africa
    } else if in_oceania(lat, lon) {
        Shard::Oceania
    } else if in_antarctica(lat) {
        Shard::Antarctica
    } else {
        Shard::NorthAmerica
    }
}

/// The smallest stake a node of the shard must hold.
pub open spec fn minimum_stake_of(shard: Shard) -> u64 {
    match shard {
        Shard::NorthAmerica | Shard::Europe | Shard::Asia => 100_000,
        Shard::SouthAmerica | Shard::Africa | Shard::Oceania => 50_000,
        Shard::Antarctica => 10_000,
    }
}

/// The smallest stake a node of the shard must hold: 100,000 in North
/// America, Europe and Asia, 50,000 in South America, Africa and Oceania,
/// 10,000 in Antarctica.
pub fn minimum_stake(shard: &Shard) -> (r: u64)
    ensures
        r == minimum_stake_of(*shard),
{
    match shard {
        Shard::NorthAmerica | Shard::Europe | Shard::Asia => 100_000,
        Shard::SouthAmerica | Shard::Africa | Shard::Oceania => 50_000,
        Shard::Antarctica => 10_000,
    }
}

} // verus!
