[package]
name = "ckb_block_verifier"
version = "0.1.0"
edition = "2021"
publish = false

[dependencies]
ckb-app-config = "=0.43.2"
ckb-build-info = "=0.43.2"
ckb-chain-spec = "=0.43.2"
ckb-error = "=0.43.2"
ckb-jsonrpc-types = "=0.43.2"
ckb-logger = "=0.43.2"
ckb-resource = "=0.43.2"
ckb-traits = "=0.43.2"
ckb-types = "=0.43.2"
ckb-verification-traits = "=0.43.2"
# Not called here. It holds back a dependency of ckb-app-config: tentacle-secio 0.5.7 asks for any
# 0.7 and does not compile with the later ones.
tokio-util = "=0.7.10"
