use vstd::prelude::*;

verus! {

/// Body of a redirect.
pub const REDIRECT: &'static str = "<html>
<head><title>301 Moved Permanently</title></head>
<body>
<center><h1>301 Moved Permanently</h1></center>
</body>
</html>
";

/// Body of a refused request.
pub const BAD_REQUEST: &'static str = "<html>
<head><title>400 Bad Request</title></head>
<body>
<center><h1>400 Bad Request</h1></center>
</body>
</html>
";

/// Body of a missing challenge proof.
pub const NOT_FOUND: &'static str = "<html>
<head><title>404 Not Found</title></head>
<body>
<center><h1>404 Not Found</h1></center>
</body>
</html>
";

} // verus!
