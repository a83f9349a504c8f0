//! Data model for the remote catalog's wire schemas: the success payload
//! and the error envelope.

use vstd::prelude::*;

verus! {

/// Links to cover images.
#[derive(Debug, Clone)]
pub struct ImageLink {
    pub small_thumbnail: Option<String>,
    pub thumbnail: Option<String>,
}

/// A standard book identifier, such as an ISBN-10 or ISBN-13.
#[derive(Debug, Clone)]
pub struct IndustryIdentifiers {
    pub identifier: String,
    pub identifier_type: String,
}

/// Detailed information about a book.
#[derive(Debug, Clone)]
pub struct VolumeInfo {
    pub title: String,
    pub subtitle: Option<String>,
    pub authors: Option<Vec<String>>,
    pub publisher: Option<String>,
    pub published_date: Option<String>,
    pub description: Option<String>,
    pub industry_identifiers: Option<Vec<IndustryIdentifiers>>,
    pub page_count: Option<u16>,
    /// Print type of the entry; an empty string when the response
    /// carried none.
    pub print_type: String,
    pub categories: Option<Vec<String>>,
    pub image_links: Option<ImageLink>,
}

impl VolumeInfo {
    /// The default substituted for a missing print type at the decode
    /// boundary: the empty string.
    pub fn default_print_type() -> (r: String)
        ensures
            r@ == Seq::<char>::empty(),
    {
        String::new()
    }
}

/// A catalog entry with its basic metadata.
#[derive(Debug, Clone)]
pub struct Book {
    pub id: String,
    pub etag: String,
    pub kind: Option<String>,
    pub self_link: Option<String>,
    pub volume_info: VolumeInfo,
}

/// The success payload of a volumes search.
#[derive(Debug, Clone)]
pub struct VolumeResponse {
    pub kind: String,
    pub total_items: i32,
    pub items: Option<Vec<Book>>,
}

/// The error envelope the remote wraps around a failed call.
#[derive(Debug, Clone)]
pub struct GoogleApiError {
    pub error: GoogleApiErrorDetail,
}

/// The detail of a remote error.
#[derive(Debug, Clone)]
pub struct GoogleApiErrorDetail {
    /// Remote error code.
    pub code: u16,
    /// Error description.
    pub message: String,
    pub status: Option<String>,
    pub errors: Option<Vec<GoogleApiErrorItem>>,
}

/// One listed cause inside the error envelope.
#[derive(Debug, Clone)]
pub struct GoogleApiErrorItem {
    pub message: String,
    pub domain: String,
    pub reason: String,
}

/// Mathematical mirror of `ImageLink`, text as character sequences.
pub struct ImageLinkV {
    pub small_thumbnail: Option<Seq<char>>,
    pub thumbnail: Option<Seq<char>>,
}

/// Mathematical mirror of `IndustryIdentifiers`.
pub struct IndustryIdentifiersV {
    pub identifier: Seq<char>,
    pub identifier_type: Seq<char>,
}

/// Mathematical mirror of `VolumeInfo`.
pub struct VolumeInfoV {
    pub title: Seq<char>,
    pub subtitle: Option<Seq<char>>,
    pub authors: Option<Seq<Seq<char>>>,
    pub publisher: Option<Seq<char>>,
    pub published_date: Option<Seq<char>>,
    pub description: Option<Seq<char>>,
    pub industry_identifiers: Option<Seq<IndustryIdentifiersV>>,
    pub page_count: Option<u16>,
    pub print_type: Seq<char>,
    pub categories: Option<Seq<Seq<char>>>,
    pub image_links: Option<ImageLinkV>,
}

/// Mathematical mirror of `Book`.
pub struct BookV {
    pub id: Seq<char>,
    pub etag: Seq<char>,
    pub kind: Option<Seq<char>>,
    pub self_link: Option<Seq<char>>,
    pub volume_info: VolumeInfoV,
}

/// Mathematical mirror of `VolumeResponse`.
pub struct VolumeResponseV {
    pub kind: Seq<char>,
    pub total_items: i32,
    pub items: Option<Seq<BookV>>,
}

/// Mathematical mirror of `GoogleApiErrorItem`.
pub struct GoogleApiErrorItemV {
    pub message: Seq<char>,
    pub domain: Seq<char>,
    pub reason: Seq<char>,
}

/// Mathematical mirror of `GoogleApiErrorDetail`.
pub struct GoogleApiErrorDetailV {
    pub code: u16,
    pub message: Seq<char>,
    pub status: Option<Seq<char>>,
    pub errors: Option<Seq<GoogleApiErrorItemV>>,
}

/// Mathematical mirror of `GoogleApiError`.
pub struct GoogleApiErrorV {
    pub error: GoogleApiErrorDetailV,
}

impl DeepView for ImageLink {
    type V = ImageLinkV;

    open spec fn deep_view(&self) -> ImageLinkV {
        ImageLinkV {
            small_thumbnail: self.small_thumbnail.deep_view(),
            thumbnail: self.thumbnail.deep_view(),
        }
    }
}

impl DeepView for IndustryIdentifiers {
    type V = IndustryIdentifiersV;

    open spec fn deep_view(&self) -> IndustryIdentifiersV {
        IndustryIdentifiersV {
            identifier: self.identifier@,
            identifier_type: self.identifier_type@,
        }
    }
}

impl DeepView for VolumeInfo {
    type V = VolumeInfoV;

    open spec fn deep_view(&self) -> VolumeInfoV {
        VolumeInfoV {
            title: self.title@,
            subtitle: self.subtitle.deep_view(),
            authors: self.authors.deep_view(),
            publisher: self.publisher.deep_view(),
            published_date: self.published_date.deep_view(),
            description: self.description.deep_view(),
            industry_identifiers: self.industry_identifiers.deep_view(),
            page_count: self.page_count,
            print_type: self.print_type@,
            categories: self.categories.deep_view(),
            image_links: self.image_links.deep_view(),
        }
    }
}

impl DeepView for Book {
    type V = BookV;

    open spec fn deep_view(&self) -> BookV {
        BookV {
            id: self.id@,
            etag: self.etag@,
            kind: self.kind.deep_view(),
            self_link: self.self_link.deep_view(),
            volume_info: self.volume_info.deep_view(),
        }
    }
}

impl DeepView for VolumeResponse {
    type V = VolumeResponseV;

    open spec fn deep_view(&self) -> VolumeResponseV {
        VolumeResponseV {
            kind: self.kind@,
            total_items: self.total_items,
            items: self.items.deep_view(),
        }
    }
}

impl DeepView for GoogleApiErrorItem {
    type V = GoogleApiErrorItemV;

    open spec fn deep_view(&self) -> GoogleApiErrorItemV {
        GoogleApiErrorItemV {
            message: self.message@,
            domain: self.domain@,
            reason: self.reason@,
        }
    }
}

impl DeepView for GoogleApiErrorDetail {
    type V = GoogleApiErrorDetailV;

    open spec fn deep_view(&self) -> GoogleApiErrorDetailV {
        GoogleApiErrorDetailV {
            code: self.code,
            message: self.message@,
            status: self.status.deep_view(),
            errors: self.errors.deep_view(),
        }
    }
}

impl DeepView for GoogleApiError {
    type V = GoogleApiErrorV;

    open spec fn deep_view(&self) -> GoogleApiErrorV {
        GoogleApiErrorV { error: self.error.deep_view() }
    }
}

} // verus!
