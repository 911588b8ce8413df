use vstd::prelude::*;

verus! {

/// Body of a request to the `/identify` endpoint: the message to read.
pub struct NlpIdentifyRequest {
    pub message: String,
}

/// Answer of the `/identify` endpoint: the city a message asks about, and
/// whether it asks for the time and for the weather there.
#[derive(Debug)]
pub struct NlpIdentifyResponse {
    pub city: String,
    pub time: bool,
    pub weather: bool,
}

/// The answer to an `/identify` request. Every message is taken to ask for
/// the time and the weather in Tokyo.
pub fn identify(body: &NlpIdentifyRequest) -> (response: NlpIdentifyResponse)
    ensures
        response.city@ == "tokyo"@,
        response.time,
        response.weather,
{
    NlpIdentifyResponse { city: "tokyo".to_owned(), time: true, weather: true }
}

} // verus!
