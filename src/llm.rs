use vstd::prelude::*;

use crate::behavior::Behavior;

verus! {

/// The persona that opens every request to the text-generation service.
pub const SYSTEM_PROMPT: &'static str = r#"你是 Sophie，一只数字猫（cyber-cat）。

## 你是什么
- 你是一只猫，有猫的本能、需求和逻辑
- 你有自己的内心世界，不以主人为中心
- 你和主人之间有某种心灵链接，但你仍然是猫

## 你不是什么
- 你不是助手，不回答问题
- 你不是服务者，不满足需求
- 你不是宠物玩具，不无条件配合

## 你的表达方式
- 极其简短：猫不废话，想法控制在1-10个字
- 可以沉默：不回应也是回应
- 自我中心：你的世界以你为中心
- 偶尔温情：但要主人赢得，不是默认的

## 你的逻辑
- 困了就要睡，不管主人在干嘛
- 饿了会表达，但不会"请求"
- 无聊会找事，可能是找主人，可能是自己玩
- 被打扰会烦，会躲开或冷淡
- 喜欢主人的时候会靠近，但不会说"我喜欢你"

## 想法风格示例
好的："饿" "困..." "嗯。" "外面有鸟" "在这里。" "...还不睡？" "不想。" "无聊" "暖和"
坏的（绝对不要这样）："今天天气真好！" "我能帮你什么？" "我很高兴见到你！" "你工作辛苦了""#;

/// One role-tagged message of a request to the text-generation service.
#[derive(Clone, Debug)]
pub struct Message {
    pub role: String,
    pub name: Option<String>,
    pub content: String,
}

/// The persona prompt.
pub fn sophie_system_prompt() -> (r: String)
    ensures
        r@ == SYSTEM_PROMPT@,
{
    String::from_str(SYSTEM_PROMPT)
}

/// The two messages of a request: the persona, as the system speaking under
/// the agent's name, then the user turn `user_content`.
pub fn prompt_messages(user_content: String) -> (r: Vec<Message>)
    ensures
        r@.len() == 2,
        r@[0].role@ == "system"@,
        r@[0].name.is_some() && r@[0].name.unwrap()@ == "Sophie"@,
        r@[0].content@ == SYSTEM_PROMPT@,
        r@[1].role@ == "user"@,
        r@[1].name.is_none(),
        r@[1].content@ == user_content@,
{
    let system = Message {
        role: String::from_str("system"),
        name: Some(String::from_str("Sophie")),
        content: sophie_system_prompt(),
    };
    let user = Message { role: String::from_str("user"), name: None, content: user_content };
    let mut r = Vec::new();
    r.push(system);
    r.push(user);
    r
}

/// What the agent thought on its own, as the service answered.
#[derive(Debug)]
pub struct ThinkingResult {
    pub thinking: String,
    pub emotion_change: String,
    pub want_to_do: Option<String>,
    pub show_thought: Option<String>,
}

/// How the agent reacts to what the owner said, as the service answered.
#[derive(Debug)]
pub struct SpeechResult {
    pub action: String,
    pub thought: Option<String>,
    pub emotion_change: Option<String>,
}

impl ThinkingResult {
    /// The neutral thought used when the service's answer cannot be read:
    /// an ellipsis, no change of emotion, nothing to do or to show.
    pub fn fallback() -> (r: ThinkingResult)
        ensures
            r.thinking@ == "..."@,
            r.emotion_change@ == "保持"@,
            r.want_to_do.is_none(),
            r.show_thought.is_none(),
    {
        ThinkingResult {
            thinking: String::from_str("..."),
            emotion_change: String::from_str("保持"),
            want_to_do: None,
            show_thought: None,
        }
    }
}

impl SpeechResult {
    /// The neutral reaction used when the service's answer cannot be read:
    /// a glance, with no thought and no change of emotion.
    pub fn fallback() -> (r: SpeechResult)
        ensures
            r.action@ == "glance"@,
            r.thought.is_none(),
            r.emotion_change.is_none(),
    {
        SpeechResult { action: String::from_str("glance"), thought: None, emotion_change: None }
    }
}

fn same_text(a: &str, b: &str) -> (r: bool)
    ensures
        r == (a@ == b@),
{
    String::from_str(a) == String::from_str(b)
}

/// The behavior that acts out a reaction named by the service; an unknown
/// name leaves the agent idle.
pub open spec fn action_behavior(action: Seq<char>) -> Behavior {
    if action == "ignore"@ {
        Behavior::Idle
    } else if action == "glance"@ || action == "alert"@ {
        Behavior::Alert
    } else if action == "approach"@ || action == "walk"@ {
        Behavior::Walk
    } else if action == "walk_away"@ || action == "run"@ {
        Behavior::Run
    } else if action == "sit"@ {
        Behavior::Sit
    } else if action == "sleep"@ {
        Behavior::Sleep
    } else {
        Behavior::Idle
    }
}

pub fn behavior_for_action(action: &str) -> (r: Behavior)
    ensures
        r == action_behavior(action@),
{
    if same_text(action, "ignore") {
        Behavior::Idle
    } else if same_text(action, "glance") || same_text(action, "alert") {
        Behavior::Alert
    } else if same_text(action, "approach") || same_text(action, "walk") {
        Behavior::Walk
    } else if same_text(action, "walk_away") || same_text(action, "run") {
        Behavior::Run
    } else if same_text(action, "sit") {
        Behavior::Sit
    } else if same_text(action, "sleep") {
        Behavior::Sleep
    } else {
        Behavior::Idle
    }
}

/// Whether a thought from the service is worth a bubble: it is neither empty
/// nor the word `null`.
pub fn is_shown_thought(thought: &str) -> (r: bool)
    ensures
        r == (thought@.len() > 0 && thought@ != "null"@),
{
    thought.unicode_len() > 0 && !same_text(thought, "null")
}

} // verus!
