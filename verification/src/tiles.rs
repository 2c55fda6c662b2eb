//! Selectable map tile layers.
//!
//! The standard OpenStreetMap raster and an [`OpenTopoMap`] topographic raster.
//! Both use the same slippy-map XYZ PNG scheme, so they share the widget stack
//! and the on-disk HTTP cache (keyed by URL) with no special handling - the two
//! layers' tiles simply live under different cache keys.

use crate::text::{decimal, decimal_text};
use vstd::prelude::*;
use walkers::sources::TileSource;

verus! {

/// Identifies a tile in the tile grid.
#[derive(Clone, Copy, PartialEq, Eq, Debug, Structural)]
pub struct TileId {
    pub x: u32,
    pub y: u32,
    /// Zoom level, where 0 means no zoom.
    pub zoom: u8,
}

/// Who a layer's tiles are owed to.
pub struct Attribution {
    pub text: &'static str,
    pub url: &'static str,
}

/// The URL of a tile under a server's address.
pub open spec fn url_under(server: Seq<char>, tile: TileId) -> Seq<char> {
    server + decimal(tile.zoom as nat) + "/"@ + decimal(tile.x as nat) + "/"@ + decimal(
        tile.y as nat,
    ) + ".png"@
}

/// The URL of a tile, from `OpenStreetMap::tile_url` of the `walkers` crate:
/// zoom, column and row under the OpenStreetMap tile server.
#[verifier::external_body]
fn street_url(tile: TileId) -> (r: String)
    ensures
        r@ == url_under("https://tile.openstreetmap.org/"@, tile),
{
    walkers::sources::OpenStreetMap.tile_url(
        walkers::TileId { x: tile.x, y: tile.y, zoom: tile.zoom },
    )
}

/// The highest zoom of the OpenStreetMap tile server, from
/// `OpenStreetMap::max_zoom` of the `walkers` crate, which is the default of its
/// `TileSource` trait.
#[verifier::external_body]
fn street_max_zoom() -> (r: u8)
    ensures
        r == 19,
{
    walkers::sources::OpenStreetMap.max_zoom()
}

/// OpenTopoMap topographic tiles (<https://opentopomap.org>): OSM data with
/// contour lines and hillshading. Same XYZ PNG scheme as OSM; serves up to
/// zoom 17 (the map upscales the deepest tile past that).
pub struct OpenTopoMap;

impl OpenTopoMap {
    /// The URL of a tile.
    pub fn tile_url(&self, tile: TileId) -> (r: String)
        ensures
            r@ == url_under("https://tile.opentopomap.org/"@, tile),
    {
        let mut r = "https://tile.opentopomap.org/".to_owned();
        r.append(decimal_text(tile.zoom as u64).as_str());
        r.append("/");
        r.append(decimal_text(tile.x as u64).as_str());
        r.append("/");
        r.append(decimal_text(tile.y as u64).as_str());
        r.append(".png");
        r
    }

    /// Who the tiles are owed to.
    pub fn attribution(&self) -> (r: Attribution)
        ensures
            r.text@ == "OpenTopoMap (CC-BY-SA), OpenStreetMap contributors, SRTM"@,
            r.url@ == "https://opentopomap.org/about"@,
    {
        Attribution {
            text: "OpenTopoMap (CC-BY-SA), OpenStreetMap contributors, SRTM",
            url: "https://opentopomap.org/about",
        }
    }

    /// The highest zoom of the tile server.
    pub fn max_zoom(&self) -> (r: u8)
        ensures
            r == 17,
    {
        17
    }
}

/// Which tile layer the map is showing. Also drives the offline download and
/// cache lookups so pre-fetching and the offline zoom fallback act on the
/// layer that is on screen (each layer caches under its own URLs).
#[derive(Clone, Copy, PartialEq, Eq, Debug, Structural)]
pub enum MapLayer {
    /// Standard OpenStreetMap raster.
    Standard,
    /// OpenTopoMap topographic raster.
    Topo,
}

impl MapLayer {
    /// The address of the layer's tile server.
    pub open spec fn server(self) -> Seq<char> {
        match self {
            MapLayer::Standard => "https://tile.openstreetmap.org/"@,
            MapLayer::Topo => "https://tile.opentopomap.org/"@,
        }
    }

    /// Highest zoom the layer's tile server offers.
    pub open spec fn deepest(self) -> u8 {
        match self {
            MapLayer::Standard => 19,
            MapLayer::Topo => 17,
        }
    }

    /// The other layer.
    pub open spec fn other(self) -> MapLayer {
        match self {
            MapLayer::Standard => MapLayer::Topo,
            MapLayer::Topo => MapLayer::Standard,
        }
    }

    /// The tile URL for `tile` on this layer.
    pub fn tile_url(self, tile: TileId) -> (r: String)
        ensures
            r@ == url_under(self.server(), tile),
    {
        match self {
            MapLayer::Standard => street_url(tile),
            MapLayer::Topo => OpenTopoMap.tile_url(tile),
        }
    }

    /// Highest zoom the layer's tile server offers.
    pub fn max_zoom(self) -> (r: u8)
        ensures
            r == self.deepest(),
    {
        match self {
            MapLayer::Standard => street_max_zoom(),
            MapLayer::Topo => OpenTopoMap.max_zoom(),
        }
    }

    /// The layer that the layer button switches to.
    pub fn switched(self) -> (r: MapLayer)
        ensures
            r == self.other(),
    {
        match self {
            MapLayer::Standard => MapLayer::Topo,
            MapLayer::Topo => MapLayer::Standard,
        }
    }
}

/// Each layer caches under its own URLs: a tile of one layer is never taken for
/// a tile of the other.
pub proof fn layers_share_no_tile(a: TileId, b: TileId)
    ensures
        url_under(MapLayer::Standard.server(), a) != url_under(MapLayer::Topo.server(), b),
{
    reveal_strlit("https://tile.openstreetmap.org/");
    reveal_strlit("https://tile.opentopomap.org/");
    let (x, y) = (
        url_under(MapLayer::Standard.server(), a),
        url_under(MapLayer::Topo.server(), b),
    );
    assert("https://tile.openstreetmap.org/"@[17] == 's');
    assert("https://tile.opentopomap.org/"@[17] == 't');
    assert(x[17] == 's');
    assert(y[17] == 't');
}

} // verus!
