[package]
name = "h264_nalu"
version = "0.1.0"
edition = "2021"
publish = false
