[package]
name = "gitsync"
version = "0.1.0"
edition = "2021"
publish = false

[dependencies]
gix = { version = "=0.88.0", features = ["blocking-network-client", "status", "revision", "worktree-mutation", "interrupt"] }
gix-worktree-state = "=0.35.0"
log = "=0.4.34"

[dev-dependencies]
tempfile = "=3.27.0"
