//! A verified session layer over a stateful video bitstream decoder.
//!
//! The decoding engine itself (bitstream parsing, prediction, filtering)
//! is an external collaborator reached only through an opaque handle; the
//! foreign calls that drive it live outside this library. What is stated
//! and proved here is the session protocol around that handle: the status
//! taxonomy, the parameter and acceleration code maps, the clamping of
//! signed native fields to their documented ranges, the plane geometry of
//! a decoded picture, the shared-ownership teardown of the one native
//! handle, and the push/decode/drain state machine with its backpressure
//! bookkeeping and picture-buffer lifetime.

mod clamp;
mod context;
mod errors;
mod image;
mod params;
mod session;

pub use clamp::bool_to_c_int;
pub use clamp::c_int_to_bool;
pub use clamp::c_int_to_u8;
pub use clamp::capped_i32_of;
pub use clamp::clamp_step;
pub use clamp::clamped_step_of;
pub use clamp::clamped_u8;
pub use clamp::nonneg_u32;
pub use clamp::nonneg_u32_of;
pub use clamp::nonneg_usize;
pub use clamp::u32_to_c_int;
pub use context::ContextHandles;
pub use context::context_alloc_outcome;
pub use context::drop_holder_post;
pub use context::lemma_release_exactly_once;
pub use errors::DeError;
pub use errors::error_code;
pub use errors::is_error_code;
pub use errors::is_warning_code;
pub use errors::lemma_code_round_trip;
pub use errors::lemma_status_of_inverts_code;
pub use errors::spec_is_retryable;
pub use errors::spec_is_warning;
pub use errors::status_of;
pub use image::Channel;
pub use image::ChromaFormat;
pub use image::NalHeader;
pub use image::PlaneLayout;
pub use image::channel_index;
pub use image::chroma_of_code;
pub use image::plane_layout;
pub use params::ACCELERATION_PARAM_CODE;
pub use params::Acceleration;
pub use params::ParamBool;
pub use params::ParamI32;
pub use params::acceleration_code;
pub use params::acceleration_rank;
pub use params::lemma_acceleration_codes_ordered;
pub use params::param_bool_code;
pub use params::param_i32_code;
pub use session::DecodeResult;
pub use session::FollowUp;
pub use session::NalRecord;
pub use session::PictureTicket;
pub use session::PushMeta;
pub use session::SessionAbs;
pub use session::SessionModel;
pub use session::decode_outcome;
pub use session::decode_outcome_of;
pub use session::decode_post;
pub use session::decode_status;
pub use session::drained;
pub use session::end_of_frame_post;
pub use session::flush_post;
pub use session::follow_up;
pub use session::follow_up_of;
pub use session::lemma_drain_yields_every_frame;
pub use session::lemma_full_buffer_retry_progresses;
pub use session::lemma_release_all_empties_buffer;
pub use session::lemma_two_releases_free_two_slots;
pub use session::lemma_user_data_round_trip;
pub use session::push_data_post;
pub use session::push_nal_post;
pub use session::release_n_post;
pub use session::release_post;
pub use session::reset_post;
pub use session::run_session;
pub use session::seal_post;
pub use session::ticket_of;
pub use session::tickets_of;
