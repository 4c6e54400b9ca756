# Dragon-Display

Dragon-Display shows the images of a tabletop campaign on a second monitor,
and can keep a campaign's image folder in step with a Google Drive folder.

The crate is split in two:

- `src/` is the library, verified with Verus: the campaign configuration
  (what is stored, when a configuration is sound, what writing and removing a
  campaign do), the checks on a new campaign's name and folder, the reading of
  Google's redirect, the plan that synchronises a folder with the drive, the
  reports of the drive client and the decisions of the windows that follow
  them, and the state of the display (rotation, fit, grid).
- `app/` is the program around it: the GTK windows, the configuration file,
  the local server that receives Google's redirect and the Google Drive
  requests.

`tests/` exercises the library on concrete values.
