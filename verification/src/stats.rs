//! Live measurements. Fractional quantities are held in fixed point, in
//! hundredths of their unit (the `_x100` fields): 12.5% is 1250. A
//! measurement the platform could not provide is `None`, never a made-up
//! zero.

use vstd::prelude::*;

verus! {

/// Process and system resource usage at one moment.
#[derive(Debug, Clone, Copy, PartialEq, Eq, Structural)]
pub struct ResourceStats {
    pub process_ram_mb_x100: u64,
    pub process_cpu_percent_x100: u64,
    pub system_cpu_percent_x100: Option<u64>,
    pub gpu_usage_percent_x100: Option<u64>,
    pub gpu_video_encode_percent_x100: Option<u64>,
    pub gpu_vram_used_mb_x100: Option<u64>,
    pub disk_write_mb_per_sec_x100: Option<u64>,
}

impl Default for ResourceStats {
    fn default() -> (s: Self)
        ensures
            s.process_ram_mb_x100 == 0,
            s.process_cpu_percent_x100 == 0,
            s.system_cpu_percent_x100 is None,
            s.gpu_usage_percent_x100 is None,
            s.gpu_video_encode_percent_x100 is None,
            s.gpu_vram_used_mb_x100 is None,
            s.disk_write_mb_per_sec_x100 is None,
    {
        ResourceStats {
            process_ram_mb_x100: 0,
            process_cpu_percent_x100: 0,
            system_cpu_percent_x100: None,
            gpu_usage_percent_x100: None,
            gpu_video_encode_percent_x100: None,
            gpu_vram_used_mb_x100: None,
            disk_write_mb_per_sec_x100: None,
        }
    }
}

#[derive(Debug, Clone, Copy, PartialEq, Eq, Structural)]
pub struct CaptureStats {
    pub capture_fps_x100: u64,
    pub frames_captured: u64,
    pub frames_dropped_capture: u64,
}

#[derive(Debug, Clone, Copy, PartialEq, Eq, Structural)]
pub struct EncodeStats {
    pub encode_fps_x100: u64,
    pub avg_encode_latency_ms_x100: u64,
    pub frames_encoded: u64,
    pub frames_dropped_encoder_backpressure: u64,
    pub encoder_queue_depth: u32,
}

impl Default for CaptureStats {
    fn default() -> (s: Self)
        ensures
            s.capture_fps_x100 == 0,
            s.frames_captured == 0,
            s.frames_dropped_capture == 0,
    {
        CaptureStats { capture_fps_x100: 0, frames_captured: 0, frames_dropped_capture: 0 }
    }
}

impl Default for EncodeStats {
    fn default() -> (s: Self)
        ensures
            s.encode_fps_x100 == 0,
            s.avg_encode_latency_ms_x100 == 0,
            s.frames_encoded == 0,
            s.frames_dropped_encoder_backpressure == 0,
            s.encoder_queue_depth == 0,
    {
        EncodeStats {
            encode_fps_x100: 0,
            avg_encode_latency_ms_x100: 0,
            frames_encoded: 0,
            frames_dropped_encoder_backpressure: 0,
            encoder_queue_depth: 0,
        }
    }
}

/// Progress of a recording.
#[derive(Debug, Clone, Copy, PartialEq, Eq, Structural)]
pub struct RecordingStats {
    pub duration_secs_x100: u64,
    pub file_size_bytes: u64,
    pub disk_write_mb_per_sec_x100: u64,
}

impl Default for RecordingStats {
    fn default() -> (s: Self)
        ensures
            s.duration_secs_x100 == 0,
            s.file_size_bytes == 0,
            s.disk_write_mb_per_sec_x100 == 0,
    {
        RecordingStats { duration_secs_x100: 0, file_size_bytes: 0, disk_write_mb_per_sec_x100: 0 }
    }
}

#[derive(Debug, Clone, Copy, PartialEq, Eq, Structural)]
pub enum ConnectionState {
    Idle,
    Connecting,
    Connected,
    Reconnecting,
    Failed,
}

/// Health of a live stream.
#[derive(Debug)]
pub struct StreamStats {
    pub connection_state: ConnectionState,
    pub duration_secs_x100: u64,
    pub upload_bitrate_kbps_x100: u64,
    pub target_bitrate_kbps_x100: u64,
    pub dropped_frames: u64,
    pub dropped_frames_percent_x100: u64,
    pub encoder_queue_depth: u32,
    pub round_trip_latency_ms_x100: Option<u64>,
    pub reconnect_attempts: u32,
    pub last_error: Option<String>,
}

impl Default for StreamStats {
    fn default() -> (s: Self)
        ensures
            s.connection_state == ConnectionState::Idle,
            s.duration_secs_x100 == 0,
            s.upload_bitrate_kbps_x100 == 0,
            s.target_bitrate_kbps_x100 == 0,
            s.dropped_frames == 0,
            s.dropped_frames_percent_x100 == 0,
            s.encoder_queue_depth == 0,
            s.round_trip_latency_ms_x100 is None,
            s.reconnect_attempts == 0,
            s.last_error is None,
    {
        StreamStats {
            connection_state: ConnectionState::Idle,
            duration_secs_x100: 0,
            upload_bitrate_kbps_x100: 0,
            target_bitrate_kbps_x100: 0,
            dropped_frames: 0,
            dropped_frames_percent_x100: 0,
            encoder_queue_depth: 0,
            round_trip_latency_ms_x100: None,
            reconnect_attempts: 0,
            last_error: None,
        }
    }
}

} // verus!
