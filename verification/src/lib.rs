pub mod arazzo;
pub mod laws;
pub mod live;
pub mod renderer;

pub use arazzo::{Action, ActionType, ArazzoDocument, Criteria, Info, Step, Workflow};
pub use live::{live_payload, mermaid_live_url};
pub use renderer::{ActionSide, MermaidFlowchart, Renderer, Verdict};
