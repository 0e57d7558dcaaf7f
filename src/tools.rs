//! The composed tools: weather delegates to time, which delegates to echo.

use vstd::prelude::*;

use std::sync::Arc;

verus! {

/// Input of the echo tools.
pub struct EchoInput {
    pub message: String,
}

/// Input of the time tool.
pub struct TimeInput {
    pub location: String,
}

/// Input of the weather tool.
pub struct WeatherInput {
    pub location: String,
}

/// What the echo tool answers for `message`.
pub open spec fn echo_text(message: Seq<char>) -> Seq<char> {
    "Echo: "@ + message
}

/// The message that the time tool hands to the echo tool for `location`.
pub open spec fn time_echo_message(location: Seq<char>) -> Seq<char> {
    "Time for "@ + location
}

/// What the time tool answers for `location`; for "TimeCity" it embeds the echo tool's answer.
pub open spec fn time_text(location: Seq<char>) -> Seq<char> {
    if location == "TimeCity"@ {
        "The current time in "@ + location + " is 12:00 PM. "@ + echo_text(time_echo_message(location))
    } else {
        "The current time in "@ + location + " is 12:00 PM."@
    }
}

/// What the weather tool answers for `location`; for "TimeCity" it embeds the time tool's answer.
pub open spec fn weather_text(location: Seq<char>) -> Seq<char> {
    if location == "TimeCity"@ {
        "Weather in TimeCity is sunny, and "@ + time_text(location)
    } else {
        "The weather in "@ + location + " is sunny."@
    }
}

/// The innermost tool of the composition chain.
pub struct EchoTool {}

impl EchoTool {
    pub fn echo(&self, input: EchoInput) -> (r: String)
        ensures
            r@ == echo_text(input.message@),
    {
        String::from_str("Echo: ").concat(input.message.as_str())
    }
}

pub fn new_echo_tool() -> EchoTool {
    EchoTool {  }
}

/// Tells the time of a location; delegates to the echo tool for one location.
pub struct TimeTool {
    pub echo_tool: Arc<EchoTool>,
}

impl TimeTool {
    pub fn get_time_in_location(&self, input: TimeInput) -> (r: String)
        ensures
            r@ == time_text(input.location@),
    {
        if input.location == String::from_str("TimeCity") {
            let echo_input = EchoInput {
                message: String::from_str("Time for ").concat(input.location.as_str()),
            };
            let echo_result = self.echo_tool.echo(echo_input);
            String::from_str("The current time in ").concat(input.location.as_str()).concat(
                " is 12:00 PM. ",
            ).concat(echo_result.as_str())
        } else {
            String::from_str("The current time in ").concat(input.location.as_str()).concat(
                " is 12:00 PM.",
            )
        }
    }
}

pub fn new_time_tool(echo_tool: Arc<EchoTool>) -> (r: TimeTool)
    ensures
        r.echo_tool == echo_tool,
{
    TimeTool { echo_tool }
}

/// Reports the weather of a location; delegates to the time tool for one location.
pub struct WeatherTool {
    pub time_tool: Arc<TimeTool>,
}

impl WeatherTool {
    pub fn get_weather(&self, input: WeatherInput) -> (r: String)
        ensures
            r@ == weather_text(input.location@),
    {
        if input.location == String::from_str("TimeCity") {
            let time_input = TimeInput { location: input.location.clone() };
            let time_result = self.time_tool.get_time_in_location(time_input);
            String::from_str("Weather in TimeCity is sunny, and ").concat(time_result.as_str())
        } else {
            String::from_str("The weather in ").concat(input.location.as_str()).concat(
                " is sunny.",
            )
        }
    }
}

pub fn new_weather_tool(time_tool: Arc<TimeTool>) -> (r: WeatherTool)
    ensures
        r.time_tool == time_tool,
{
    WeatherTool { time_tool }
}

/// The weather tool's answer for "TimeCity" holds the time tool's answer for it, which in
/// turn holds the echo tool's answer for the message "Time for TimeCity".
pub proof fn lemma_composition_chain()
    ensures
        weather_text("TimeCity"@) == "Weather in TimeCity is sunny, and "@ + time_text("TimeCity"@),
        time_text("TimeCity"@) == "The current time in TimeCity is 12:00 PM. "@ + echo_text(
            "Time for TimeCity"@,
        ),
        weather_text("TimeCity"@) == "Weather in TimeCity is sunny, and The current time in TimeCity is 12:00 PM. "@
            + echo_text("Time for TimeCity"@),
{
    reveal_strlit("TimeCity");
    reveal_strlit("Time for ");
    reveal_strlit("Time for TimeCity");
    reveal_strlit("The current time in ");
    reveal_strlit(" is 12:00 PM. ");
    reveal_strlit("The current time in TimeCity is 12:00 PM. ");
    reveal_strlit("Weather in TimeCity is sunny, and ");
    reveal_strlit("Weather in TimeCity is sunny, and The current time in TimeCity is 12:00 PM. ");
    assert("Time for "@ + "TimeCity"@ =~= "Time for TimeCity"@);
    assert("The current time in "@ + "TimeCity"@ + " is 12:00 PM. "@
        =~= "The current time in TimeCity is 12:00 PM. "@);
    assert("Weather in TimeCity is sunny, and "@ + "The current time in TimeCity is 12:00 PM. "@
        =~= "Weather in TimeCity is sunny, and The current time in TimeCity is 12:00 PM. "@);
    assert("Weather in TimeCity is sunny, and "@ + ("The current time in TimeCity is 12:00 PM. "@ + echo_text(
        "Time for TimeCity"@,
    )) =~= "Weather in TimeCity is sunny, and The current time in TimeCity is 12:00 PM. "@ + echo_text(
        "Time for TimeCity"@,
    ));
}

} // verus!
