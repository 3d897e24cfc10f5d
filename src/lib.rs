//! Ticker resolution, filing catalogs and query construction for the SEC EDGAR system.

pub mod edgar;
mod error;
pub mod filing;
pub mod http;
pub mod owner;
pub mod query;
pub mod ticker;
mod text;

pub use edgar::EdgarParser;
pub use error::EDGARParserError;
pub use filing::{FilingTypeOption, FILING_TYPE_COUNT};
pub use owner::OwnerOption;
pub use query::{EdgarFilingQueryBuilder, EdgarQueryBuilder};
pub use text::pad_cik;
pub use ticker::{CompanyData, CompanyDataList, DirectoryDocument, TickerDirectory};
