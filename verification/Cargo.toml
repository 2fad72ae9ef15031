[package]
name = "warnet_graph"
version = "0.1.0"
edition = "2021"
publish = false

[dependencies]
anyhow = "=1.0.104"
clap = { version = "=4.6.7", features = ["derive"] }
petgraph-graphml = "=3.1.0"
rand = "=0.8.8"
rustworkx-core = "=0.14.2"
tokio = { version = "=1.54.1", features = ["rt-multi-thread", "macros"] }
xmltree = { version = "=0.10.3", features = ["attribute-order"] }
