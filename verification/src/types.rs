//! Wire-shape types exposed by the public surface.

use vstd::prelude::*;

verus! {

/// Canonical Poli Page page formats.
#[derive(Debug, Clone, Copy, PartialEq, Eq, Structural)]
pub enum PageFormat {
    /// ISO A3 (297 × 420 mm).
    A3,
    /// ISO A4 (210 × 297 mm) — the default for most templates.
    A4,
    /// ISO A5 (148 × 210 mm).
    A5,
    /// ISO A6 (105 × 148 mm).
    A6,
    /// ISO B4 (250 × 353 mm).
    B4,
    /// ISO B5 (176 × 250 mm).
    B5,
    /// US Letter (8.5 × 11 in).
    Letter,
    /// US Legal (8.5 × 14 in).
    Legal,
    /// US Tabloid / Ledger (11 × 17 in).
    Tabloid,
    /// US Executive (7.25 × 10.5 in).
    Executive,
    /// US Statement (5.5 × 8.5 in).
    Statement,
    /// US Folio (8.5 × 13 in).
    Folio,
    /// A format this library does not know yet (the server added one).
    Unknown,
}

/// Page orientation override.
#[derive(Debug, Clone, Copy, PartialEq, Eq, Structural)]
pub enum Orientation {
    /// Portrait (taller than wide).
    Portrait,
    /// Landscape (wider than tall).
    Landscape,
    /// An orientation this library does not know yet.
    Unknown,
}

/// The API environment a request was served from.
#[derive(Debug, Clone, Copy, PartialEq, Eq, Structural)]
pub enum Environment {
    /// Test / sandbox environment — billed but isolated from production.
    Sandbox,
    /// Live / production environment.
    Live,
    /// Any future environment value.
    Unknown,
}

/// The result of a render preview.
#[derive(Debug, Clone)]
pub struct PreviewResult {
    /// Paginated HTML output ready for display.
    pub html: String,
    /// Total number of pages in the rendered preview.
    pub total_pages: u32,
    /// Which API environment served the request.
    pub environment: Environment,
}

/// A stored document's paginated HTML, with the page count the server
/// reported in its page-count header (`0` when absent or unparseable).
#[derive(Debug, Clone)]
pub struct DocumentPreviewResult {
    /// The stored paginated HTML, exactly as the API returned it.
    pub html: String,
    /// Page count from the `X-Document-Page-Count` header.
    pub page_count: u32,
}

/// Output image format for thumbnails. The server defaults to PNG.
#[derive(Debug, Clone, Copy, PartialEq, Eq, Structural)]
pub enum ThumbnailFormat {
    /// PNG — lossless.
    Png,
    /// JPEG — lossy; `quality` (1-100) tunes the trade-off.
    Jpeg,
    /// A format this library does not know yet.
    Unknown,
}

/// Options accepted by the thumbnails endpoint.
#[derive(Debug, Clone)]
pub struct ThumbnailOptions {
    /// Thumbnail width in pixels. Required by the API.
    pub width: u32,
    /// Output image format. Server default: PNG.
    pub format: Option<ThumbnailFormat>,
    /// JPEG quality (1-100). Only meaningful for JPEG.
    pub quality: Option<u8>,
    /// Generate thumbnails only for these (1-based) pages; `None` for every
    /// page.
    pub pages: Option<Vec<u32>>,
}

impl ThumbnailOptions {
    /// Minimal constructor — most callers only set `width`.
    pub fn new(width: u32) -> (o: Self)
        ensures
            o.width == width,
            o.format is None,
            o.quality is None,
            o.pages is None,
    {
        ThumbnailOptions { width, format: None, quality: None, pages: None }
    }
}

/// A single thumbnail of a stored document.
#[derive(Debug, Clone)]
pub struct Thumbnail {
    /// 1-based page number this thumbnail corresponds to.
    pub page: u32,
    /// Rendered width in pixels.
    pub width: u32,
    /// Rendered height in pixels (derived from the page aspect ratio).
    pub height: u32,
    /// Image MIME type (e.g., `"image/png"`).
    pub content_type: String,
    /// Base64-encoded image bytes.
    pub data: String,
}

} // verus!
