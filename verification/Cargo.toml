[package]
name = "hello_bedrock"
version = "0.1.0"
edition = "2021"
publish = false

[dependencies]
anyhow = "=1.0.104"
aws-config = "=1.12.0"
aws-sdk-bedrockagentruntime = "=1.146.0"
aws-sdk-bedrockruntime = "=1.148.0"
aws-sdk-sts = "=1.119.0"
aws-types = "=1.6.0"
colored = "=2.2.0"
dotenv = "=0.15.0"
dotenvy = "=0.15.7"
figlet-rs = "=0.1.5"
tokio = { version = "=1.54.1", features = ["full"] }
