use vstd::prelude::*;

verus! {

/// Help text appended to an error that the API reports with code 400, which
/// it uses for a missing or invalid key.
pub const ABOUT_API_KEY: &'static str = "About API key:
You need a valid YouTube API key to use this tool. Follow this tutorial to create one: 
https://developers.google.com/youtube/v3/getting-started#before-you-start
Then set the environment variable \"YOUTUBE_API_KEY\" to the key, or pass it as argument \"--api-key\".

PowerShell:
$env:YOUTUBE_API_KEY = \"VGFrZXVjaGkgTWFyaXlhIC0gUGxhc3RpYyBMb3Zl\"
./youtube_comment_viewer.exe https://www.youtube.com/watch?v=9Gj47G2e1Jc
or
./youtube_comment_viewer.exe 9Gj47G2e1Jc --api-key VGFrZXVjaGkgTWFyaXlhIC0gUGxhc3RpYyBMb3Zl

Bash:
export YOUTUBE_API_KEY=VGFrZXVjaGkgTWFyaXlhIC0gUGxhc3RpYyBMb3Zl
./youtube_comment_viewer https://www.youtube.com/watch?v=9Gj47G2e1Jc
or
./youtube_comment_viewer 9Gj47G2e1Jc --api-key VGFrZXVjaGkgTWFyaXlhIC0gUGxhc3RpYyBMb3Zl";

/// The key used when none is passed and the environment holds none. No key
/// is built in: the API then answers with code 400, whose message carries
/// the help on keys.
pub const DEFAULT_YOUTUBE_API_KEY: &'static str = "";

} // verus!
