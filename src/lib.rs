//! Client-side request governor for the 42 Intra API: a two-window rate
//! limiter with a server retry directive, the parsing of rate-limit response
//! headers, and the bookkeeping of a strided, multi-worker page scroll.
//!
//! Instants are plain `u64` millisecond counts on a monotonic clock chosen by
//! the caller; the waiting itself happens outside this crate.

mod error;
mod headers;
mod laws;
mod limiter;
mod meta;
mod models;
mod quota;
mod scroll;
mod uri;

pub use error::FtClientError;
pub use headers::{
    all_digits, decimal_value, digit_value, first_value, header_u64, is_digit, parse_u64,
    parsed_u64, unsigned_digits, value_view, HeaderField, HeaderFields, ResponseMetadata,
    HEADER_HOURLY_REMAINING, HEADER_RETRY_AFTER, HEADER_SECONDLY_REMAINING, HEADER_TOTAL,
};
pub use laws::{
    acquire_outcome, after_control, lemma_acquire_returns, lemma_permits_after_reset,
    lemma_permits_before_reset, lemma_retry_after_blocks, lemma_zero_remaining_blocks, permits,
    window,
};
pub use limiter::{
    sat_mul, Control, LimiterModel, RateLimiter, HOUR_WINDOW_MS, MS_PER_SECOND, SECOND_WINDOW_MS,
};
pub use meta::{observed_total, HeaderMetaData};
pub use models::{
    FtAchievement, FtAchievementDescription, FtAchievementId, FtAchievementImage,
    FtAchievementKind, FtAchievementName, FtAchievementNbrOfSuccess, FtAchievementTier,
    FtAchievementUsersUrl, FtApiScaleTeamsIdPatchBody, FtApiScaleTeamsIdPatchRequest,
    FtApiScaleTeamsIdPatchResponse, FtApiScaleTeamsIdRequest, FtEnvelopeMessage, FtScaleId,
    FtScaleTeamId,
};
pub use quota::{sat_add, Decision, QuotaWindow, WindowModel};
pub use scroll::{
    advanced, beyond_total, lemma_strides_disjoint, page_owner, page_round, stride_page,
    PageFailure, Scroll, ScrollReport, ScrollView, WorkerCursor, WorkerStatus, WorkerStep,
    RATE_LIMIT_BACKOFF_MS,
};
pub use uri::{pair_views, present_pairs, FtClientHttpApiUri, FT_API_URI_STR};
